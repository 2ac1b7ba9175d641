use mlib::bindings::{
    client_interface_text, generate_client_interface, generate_host_interface, generate_typed_interface,
    host_interface_text, mapp_function_headers, typed_interface_text,
};
use mlib::{api_version, mapp, MethodDescriptor, Param};

fn two_args() -> MethodDescriptor {
    MethodDescriptor {
        name: "resize".to_string(),
        params: vec![
            Param { name: "w".to_string(), ty: "u32".to_string() },
            Param { name: "h".to_string(), ty: "u64".to_string() },
        ],
        return_type: "bool".to_string(),
    }
}

#[test]
fn api_version_is_binding_version() {
    assert_eq!(api_version(), "0.1.0");
}

#[test]
fn client_header_lists_params_after_self() {
    assert_eq!(two_args().to_client_header_text(), "fn resize(&mut self, w: u32, h: u64) -> bool;\n");
}

#[test]
fn host_header_is_text_to_text() {
    assert_eq!(
        two_args().to_host_header_text(),
        "fn resize(&mut self, serialized_args: String) -> String;\n"
    );
}

#[test]
fn imported_header_keeps_declared_order() {
    assert_eq!(
        two_args().to_host_imported_fn_header_text(),
        "fn resize(&mut self, w: u32, h: u64, ) -> bool;\n"
    );
}

#[test]
fn delegate_forwards_arguments_in_order() {
    assert_eq!(
        two_args().to_fn_delegate_from_native_text("Plug"),
        "fn resize(&mut self, w: u32, h: u64, ) -> bool {\n    <Plug as Mapp>::resize(self, w, h, )\n}\n"
    );
}

#[test]
fn guest_export_decodes_and_calls_positionally() {
    let t = two_args().to_client_exported_fn_text("Plug");
    assert!(t.starts_with("#[wasm_bindgen]\npub fn resize(args: String) -> String {\n    let (w, h, ) = ::json5::from_str::<(u32, u64, )>(&args)\n"));
    assert!(t.contains("let result: bool = <Plug as Mapp>::resize(ctx, w, h, );\n"));
    assert!(t.ends_with("the method 'resize'\")\n}\n"));
}

#[test]
fn host_import_encodes_arguments_as_tuple() {
    let t = two_args().to_host_imported_fn_text();
    assert!(t.starts_with("fn resize(&mut self, w: u32, h: u64, ) -> bool {\n    let serialized_args = ::json5::to_string(&(w, h, ))\n"));
    assert!(t.contains("let serialized_result = self.exports.resize(serialized_args);\n"));
}

#[test]
fn signature_table_order() {
    let t = mapp_function_headers();
    let names: Vec<&str> = t.iter().map(|d| d.name.as_str()).collect();
    assert_eq!(names, vec!["update", "send_command", "receive_command_response", "flush_io", "receive_event"]);
    assert_eq!(t[0].params[0].ty, "std::time::Duration");
    assert_eq!(t[3].return_type, "mlib::IO");
}

#[test]
fn typed_interface_exact() {
    let expected = "pub trait Foo {\n    fn api_version(&mut self) -> String {\n        \"0.1.0\".to_string()\n    }\n\n\
fn update(&mut self, elapsed: std::time::Duration, ) -> ();\n\
fn send_command(&mut self, ) -> Option<mlib::Command>;\n\
fn receive_command_response(&mut self, response: mlib::CommandResponse, ) -> ();\n\
fn flush_io(&mut self, ) -> mlib::IO;\n\
fn receive_event(&mut self, event: mlib::Event, ) -> ();\n}\n";
    let headers = mapp_function_headers();
    assert_eq!(typed_interface_text("Foo", &headers), expected);
    assert_eq!(generate_typed_interface("struct Foo;", &headers), Some(("Foo".to_string(), expected.to_string())));
    assert_eq!(mapp("interface", "struct Foo;"), Some(expected.to_string()));
}

#[test]
fn host_interface_wraps_exports() {
    let headers = mapp_function_headers();
    let t = host_interface_text("Host", &headers);
    assert!(t.starts_with("#[wasmtime_rust::wasmtime]\npub trait HostExports {\n    fn initialize(&mut self);\n"));
    assert!(t.contains("fn flush_io(&mut self, serialized_args: String) -> String;\n"));
    assert!(t.contains("mapp.exports.initialize();"));
    assert_eq!(generate_host_interface("pub struct Host { x: u8 }", &headers), Some(("Host".to_string(), t.clone())));
    assert_eq!(mapp("host", "pub struct Host { x: u8 }"), Some(t));
}

#[test]
fn client_interface_ends_with_input() {
    let headers = mapp_function_headers();
    let input = "struct Plug;";
    let t = client_interface_text("Plug", input, &headers);
    assert!(t.starts_with("mod __internal_mlib {\n"));
    assert!(t.ends_with("}\nstruct Plug;"));
    assert!(t.contains("pub fn api_version() -> String {\n    \"0.1.0\".to_string()\n}\n"));
    assert_eq!(t.matches("#[wasm_bindgen]").count(), 2 + 5);
    assert_eq!(generate_client_interface(input, &headers), Some(("Plug".to_string(), t.clone())));
    assert_eq!(mapp("", input), Some(t));
}

#[test]
fn unparsable_item_gives_none() {
    let headers = mapp_function_headers();
    assert_eq!(generate_client_interface("fn f() {}", &headers), None);
    assert_eq!(mapp("host", "not rust at all {"), None);
}

#[test]
fn host_accepts_only_its_own_binding_version() {
    assert!(mlib::bindings::accepts_guest_version(&api_version()));
    assert!(!mlib::bindings::accepts_guest_version("0.1.1"));
    assert!(!mlib::bindings::accepts_guest_version(""));
}
