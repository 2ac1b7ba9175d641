//! Emission of the three binding sets (guest exports, host façade, native
//! trait) from a table of method descriptors, as Rust source text.
use vstd::prelude::*;
use vstd::string::StringExecFns;

verus! {

/// One parameter of a method: its name and its type, as source text.
pub struct Param {
    pub name: String,
    pub ty: String,
}

/// A method of the plugin interface: name, ordered parameters, return type.
pub struct MethodDescriptor {
    pub name: String,
    pub params: Vec<Param>,
    pub return_type: String,
}

/// Mathematical model of a descriptor.
pub struct DescriptorModel {
    pub name: Seq<char>,
    pub params: Seq<(Seq<char>, Seq<char>)>,
    pub return_type: Seq<char>,
}

pub open spec fn param_model(p: Param) -> (Seq<char>, Seq<char>) {
    (p.name@, p.ty@)
}

impl View for MethodDescriptor {
    type V = DescriptorModel;

    open spec fn view(&self) -> DescriptorModel {
        DescriptorModel {
            name: self.name@,
            params: self.params@.map_values(|p: Param| param_model(p)),
            return_type: self.return_type@,
        }
    }
}

/// The ways a parameter list is written out.
#[derive(Clone, Copy)]
pub enum ParamStyle {
    /// `, name: Type` for each parameter (after `&mut self`).
    AfterSelf,
    /// `name: Type, ` for each parameter.
    Typed,
    /// `name, ` for each parameter.
    Names,
    /// `Type, ` for each parameter.
    Types,
}

pub open spec fn param_piece(style: ParamStyle, p: (Seq<char>, Seq<char>)) -> Seq<char> {
    match style {
        ParamStyle::AfterSelf => ", "@ + p.0 + ": "@ + p.1,
        ParamStyle::Typed => p.0 + ": "@ + p.1 + ", "@,
        ParamStyle::Names => p.0 + ", "@,
        ParamStyle::Types => p.1 + ", "@,
    }
}

/// The pieces of all parameters, in declared order.
pub open spec fn params_text(style: ParamStyle, ps: Seq<(Seq<char>, Seq<char>)>) -> Seq<char>
    decreases ps.len(),
{
    if ps.len() == 0 {
        Seq::empty()
    } else {
        params_text(style, ps.drop_last()) + param_piece(style, ps.last())
    }
}

/// The version of this binding compiler, reported by `api_version`.
pub open spec fn version_text() -> Seq<char> {
    "0.1.0"@
}

/// Returns the version of this binding compiler.
pub fn api_version() -> (r: String)
    ensures
        r@ == version_text(),
{
    String::from_str("0.1.0")
}

fn push_params(out: &mut String, style: ParamStyle, ps: &Vec<Param>)
    ensures
        final(out)@ == old(out)@ + params_text(style, ps@.map_values(|p: Param| param_model(p))),
{
    let ghost start = out@;
    let ghost model = ps@.map_values(|p: Param| param_model(p));
    let mut i: usize = 0;
    while i < ps.len()
        invariant
            i <= ps@.len(),
            model == ps@.map_values(|p: Param| param_model(p)),
            out@ == start + params_text(style, model.take(i as int)),
        decreases ps@.len() - i,
    {
        let p = &ps[i];
        match style {
            ParamStyle::AfterSelf => {
                out.append(", ");
                out.append(p.name.as_str());
                out.append(": ");
                out.append(p.ty.as_str());
            },
            ParamStyle::Typed => {
                out.append(p.name.as_str());
                out.append(": ");
                out.append(p.ty.as_str());
                out.append(", ");
            },
            ParamStyle::Names => {
                out.append(p.name.as_str());
                out.append(", ");
            },
            ParamStyle::Types => {
                out.append(p.ty.as_str());
                out.append(", ");
            },
        }
        proof {
            assert(model.take(i + 1).drop_last() =~= model.take(i as int));
            assert(model.take(i + 1).last() == model[i as int]);
            assert(out@ =~= start + params_text(style, model.take(i + 1)));
        }
        i = i + 1;
    }
    proof {
        assert(model.take(i as int) =~= model);
    }
}

/// The call of the implementing type's method, with the parameter names in
/// declared order, on the receiver `receiver`.
pub open spec fn native_call_text(d: DescriptorModel, implementor: Seq<char>, receiver: Seq<char>) -> Seq<char> {
    "<"@ + implementor + " as Mapp>::"@ + d.name + "("@ + receiver + ", "@ + params_text(ParamStyle::Names, d.params)
}

fn push_native_call(out: &mut String, d: &MethodDescriptor, implementor: &str, receiver: &str)
    ensures
        final(out)@ == old(out)@ + native_call_text(d@, implementor@, receiver@),
{
    out.append("<");
    out.append(implementor);
    out.append(" as Mapp>::");
    out.append(d.name.as_str());
    out.append("(");
    out.append(receiver);
    out.append(", ");
    push_params(out, ParamStyle::Names, &d.params);
}

pub open spec fn client_header_spec(d: DescriptorModel) -> Seq<char> {
    "fn "@ + d.name + "(&mut self"@ + params_text(ParamStyle::AfterSelf, d.params) + ") -> "@
        + d.return_type + ";\n"@
}

pub open spec fn client_exported_fn_spec(d: DescriptorModel, implementor: Seq<char>) -> Seq<char> {
    "#[wasm_bindgen]\npub fn "@ + d.name + "(args: String) -> String {\n    let ("@
        + params_text(ParamStyle::Names, d.params) + ") = ::json5::from_str::<("@
        + params_text(ParamStyle::Types, d.params)
        + ")>(&args)\n        .expect(\"Could not deserialize host-provided arguments of the method '"@
        + d.name
        + "'\");\n    let mut ctx = __internal_mlib::MAPP_GLOBAL.write()\n        .expect(\"Global state of the Mapp became poisoned\");\n    let ctx = ctx.as_mut()\n        .expect(\"Method '"@
        + d.name + "' called without initialization of the Mapp.\");\n    let result: "@
        + d.return_type + " = "@ + native_call_text(d, implementor, "ctx"@)
        + ");\n    ::json5::to_string(&result)\n        .expect(\"Could not serialize the result of calling the method '"@
        + d.name + "'\")\n}\n"@
}

pub open spec fn host_header_spec(d: DescriptorModel) -> Seq<char> {
    "fn "@ + d.name + "(&mut self, serialized_args: String) -> String;\n"@
}

pub open spec fn host_imported_fn_spec(d: DescriptorModel) -> Seq<char> {
    "fn "@ + d.name + "(&mut self, "@ + params_text(ParamStyle::Typed, d.params) + ") -> "@
        + d.return_type + " {\n    let serialized_args = ::json5::to_string(&("@
        + params_text(ParamStyle::Names, d.params)
        + "))\n        .expect(\"Could not serialize client-provided arguments of the method '"@
        + d.name + "'\");\n    let serialized_result = self.exports."@ + d.name
        + "(serialized_args);\n    ::json5::from_str(&serialized_result)\n        .expect(\"Could not deserialize the result of calling the method '"@
        + d.name + "'\")\n}\n"@
}

pub open spec fn delegate_from_native_spec(d: DescriptorModel, implementor: Seq<char>) -> Seq<char> {
    "fn "@ + d.name + "(&mut self, "@ + params_text(ParamStyle::Typed, d.params) + ") -> "@
        + d.return_type + " {\n    "@ + native_call_text(d, implementor, "self"@) + ")\n}\n"@
}

pub open spec fn host_imported_fn_header_spec(d: DescriptorModel) -> Seq<char> {
    "fn "@ + d.name + "(&mut self, "@ + params_text(ParamStyle::Typed, d.params) + ") -> "@
        + d.return_type + ";\n"@
}

impl MethodDescriptor {
    /// The method's declaration in the guest-side `Mapp` trait.
    pub fn to_client_header_text(&self) -> (r: String)
        ensures
            r@ == client_header_spec(self@),
    {
        let mut s = String::from_str("fn ");
        s.append(self.name.as_str());
        s.append("(&mut self");
        push_params(&mut s, ParamStyle::AfterSelf, &self.params);
        s.append(") -> ");
        s.append(self.return_type.as_str());
        s.append(";\n");
        s
    }

    /// The exported guest function: decodes the argument tuple, takes the
    /// plugin instance out of the global state and encodes the result.
    pub fn to_client_exported_fn_text(&self, implementor: &str) -> (r: String)
        ensures
            r@ == client_exported_fn_spec(self@, implementor@),
    {
        let name = self.name.as_str();
        let mut s = String::from_str("#[wasm_bindgen]\npub fn ");
        s.append(name);
        s.append("(args: String) -> String {\n    let (");
        push_params(&mut s, ParamStyle::Names, &self.params);
        s.append(") = ::json5::from_str::<(");
        push_params(&mut s, ParamStyle::Types, &self.params);
        s.append(")>(&args)\n        .expect(\"Could not deserialize host-provided arguments of the method '");
        s.append(name);
        s.append("'\");\n    let mut ctx = __internal_mlib::MAPP_GLOBAL.write()\n        .expect(\"Global state of the Mapp became poisoned\");\n    let ctx = ctx.as_mut()\n        .expect(\"Method '");
        s.append(name);
        s.append("' called without initialization of the Mapp.\");\n    let result: ");
        s.append(self.return_type.as_str());
        s.append(" = ");
        push_native_call(&mut s, self, implementor, "ctx");
        s.append(");\n    ::json5::to_string(&result)\n        .expect(\"Could not serialize the result of calling the method '");
        s.append(name);
        s.append("'\")\n}\n");
        s
    }

    /// The raw export as the host sees it: text in, text out.
    pub fn to_host_header_text(&self) -> (r: String)
        ensures
            r@ == host_header_spec(self@),
    {
        let mut s = String::from_str("fn ");
        s.append(self.name.as_str());
        s.append("(&mut self, serialized_args: String) -> String;\n");
        s
    }

    /// The typed host method: encodes the arguments, calls the raw export and
    /// decodes its result.
    pub fn to_host_imported_fn_text(&self) -> (r: String)
        ensures
            r@ == host_imported_fn_spec(self@),
    {
        let name = self.name.as_str();
        let mut s = String::from_str("fn ");
        s.append(name);
        s.append("(&mut self, ");
        push_params(&mut s, ParamStyle::Typed, &self.params);
        s.append(") -> ");
        s.append(self.return_type.as_str());
        s.append(" {\n    let serialized_args = ::json5::to_string(&(");
        push_params(&mut s, ParamStyle::Names, &self.params);
        s.append("))\n        .expect(\"Could not serialize client-provided arguments of the method '");
        s.append(name);
        s.append("'\");\n    let serialized_result = self.exports.");
        s.append(name);
        s.append("(serialized_args);\n    ::json5::from_str(&serialized_result)\n        .expect(\"Could not deserialize the result of calling the method '");
        s.append(name);
        s.append("'\")\n}\n");
        s
    }

    /// A forwarding method that calls the native implementation directly.
    pub fn to_fn_delegate_from_native_text(&self, implementor: &str) -> (r: String)
        ensures
            r@ == delegate_from_native_spec(self@, implementor@),
    {
        let name = self.name.as_str();
        let mut s = String::from_str("fn ");
        s.append(name);
        s.append("(&mut self, ");
        push_params(&mut s, ParamStyle::Typed, &self.params);
        s.append(") -> ");
        s.append(self.return_type.as_str());
        s.append(" {\n    ");
        push_native_call(&mut s, self, implementor, "self");
        s.append(")\n}\n");
        s
    }

    /// The typed method declaration shared by the host façade and the native
    /// trait.
    pub fn to_host_imported_fn_header_text(&self) -> (r: String)
        ensures
            r@ == host_imported_fn_header_spec(self@),
    {
        let mut s = String::from_str("fn ");
        s.append(self.name.as_str());
        s.append("(&mut self, ");
        push_params(&mut s, ParamStyle::Typed, &self.params);
        s.append(") -> ");
        s.append(self.return_type.as_str());
        s.append(";\n");
        s
    }
}

proof fn params_text_split(style: ParamStyle, ps: Seq<(Seq<char>, Seq<char>)>, i: int)
    requires
        0 <= i <= ps.len(),
    ensures
        params_text(style, ps) == params_text(style, ps.take(i)) + params_text(style, ps.skip(i)),
    decreases ps.len(),
{
    if i == ps.len() {
        assert(ps.take(i) =~= ps);
        assert(ps.skip(i) =~= Seq::<(Seq<char>, Seq<char>)>::empty());
        assert(params_text(style, ps) + Seq::<char>::empty() =~= params_text(style, ps));
    } else {
        params_text_split(style, ps.drop_last(), i);
        assert(ps.drop_last().take(i) =~= ps.take(i));
        assert(ps.skip(i).drop_last() =~= ps.drop_last().skip(i));
        assert(ps.skip(i).last() == ps.last());
        assert(params_text(style, ps) =~= params_text(style, ps.take(i)) + params_text(style, ps.skip(i)));
    }
}

proof fn params_text_at(style: ParamStyle, ps: Seq<(Seq<char>, Seq<char>)>, i: int)
    requires
        0 <= i < ps.len(),
    ensures
        params_text(style, ps) == params_text(style, ps.take(i)) + param_piece(style, ps[i])
            + params_text(style, ps.skip(i + 1)),
{
    params_text_split(style, ps, i);
    params_text_split(style, ps.skip(i), 1);
    let first = ps.skip(i).take(1);
    assert(first.len() == 1);
    assert(first.drop_last().len() == 0);
    assert(params_text(style, first.drop_last()) =~= Seq::<char>::empty());
    assert(first.last() == ps[i]);
    assert(params_text(style, first) =~= param_piece(style, ps[i]));
    assert(ps.skip(i).skip(1) =~= ps.skip(i + 1));
}

/// Arguments are matched by position only. In the guest export, the i-th
/// name of the destructured tuple, the i-th type the tuple is decoded at and
/// the i-th argument passed to the method are all those of the i-th declared
/// parameter; the host import encodes the i-th parameter's name as the i-th
/// element of the tuple it sends.
pub proof fn positional_fidelity(d: DescriptorModel, implementor: Seq<char>, i: int)
    requires
        0 <= i < d.params.len(),
    ensures
        exists|pre: Seq<char>, mid: Seq<char>, call: Seq<char>, post: Seq<char>|
            client_exported_fn_spec(d, implementor) == pre + params_text(ParamStyle::Names, d.params)
                + mid + params_text(ParamStyle::Types, d.params) + call
                + params_text(ParamStyle::Names, d.params) + post,
        exists|pre: Seq<char>, post: Seq<char>|
            host_imported_fn_spec(d) == pre + params_text(ParamStyle::Names, d.params) + post,
        params_text(ParamStyle::Names, d.params) == params_text(ParamStyle::Names, d.params.take(i))
            + d.params[i].0 + ", "@ + params_text(ParamStyle::Names, d.params.skip(i + 1)),
        params_text(ParamStyle::Types, d.params) == params_text(ParamStyle::Types, d.params.take(i))
            + d.params[i].1 + ", "@ + params_text(ParamStyle::Types, d.params.skip(i + 1)),
{
    params_text_at(ParamStyle::Names, d.params, i);
    params_text_at(ParamStyle::Types, d.params, i);
    let pre = "#[wasm_bindgen]\npub fn "@ + d.name + "(args: String) -> String {\n    let ("@;
    let mid = ") = ::json5::from_str::<("@;
    let call = ")>(&args)\n        .expect(\"Could not deserialize host-provided arguments of the method '"@
        + d.name
        + "'\");\n    let mut ctx = __internal_mlib::MAPP_GLOBAL.write()\n        .expect(\"Global state of the Mapp became poisoned\");\n    let ctx = ctx.as_mut()\n        .expect(\"Method '"@
        + d.name + "' called without initialization of the Mapp.\");\n    let result: "@
        + d.return_type + " = "@ + "<"@ + implementor + " as Mapp>::"@ + d.name + "("@ + "ctx"@ + ", "@;
    let post = ");\n    ::json5::to_string(&result)\n        .expect(\"Could not serialize the result of calling the method '"@
        + d.name + "'\")\n}\n"@;
    assert(client_exported_fn_spec(d, implementor) =~= pre + params_text(ParamStyle::Names, d.params)
        + mid + params_text(ParamStyle::Types, d.params) + call
        + params_text(ParamStyle::Names, d.params) + post);
    let hpre = "fn "@ + d.name + "(&mut self, "@ + params_text(ParamStyle::Typed, d.params) + ") -> "@
        + d.return_type + " {\n    let serialized_args = ::json5::to_string(&("@;
    let hpost = "))\n        .expect(\"Could not serialize client-provided arguments of the method '"@
        + d.name + "'\");\n    let serialized_result = self.exports."@ + d.name
        + "(serialized_args);\n    ::json5::from_str(&serialized_result)\n        .expect(\"Could not deserialize the result of calling the method '"@
        + d.name + "'\")\n}\n"@;
    assert(host_imported_fn_spec(d) =~= hpre + params_text(ParamStyle::Names, d.params) + hpost);
}

/// The in-process delegate and the guest export reach the implementing
/// type's method by the same call: the same method, the same arguments in
/// the same order; only the receiver differs.
pub proof fn mode_equivalence(d: DescriptorModel, implementor: Seq<char>)
    ensures
        exists|pre: Seq<char>, post: Seq<char>|
            delegate_from_native_spec(d, implementor) == pre + native_call_text(d, implementor, "self"@) + post,
        exists|pre: Seq<char>, post: Seq<char>|
            client_exported_fn_spec(d, implementor) == pre + native_call_text(d, implementor, "ctx"@) + post,
        forall|r1: Seq<char>, r2: Seq<char>| #![trigger native_call_text(d, implementor, r1), native_call_text(d, implementor, r2)]
            r1 == r2 <==> native_call_text(d, implementor, r1) == native_call_text(d, implementor, r2),
{
    let dpre = "fn "@ + d.name + "(&mut self, "@ + params_text(ParamStyle::Typed, d.params) + ") -> "@
        + d.return_type + " {\n    "@;
    assert(delegate_from_native_spec(d, implementor) =~= dpre + native_call_text(d, implementor, "self"@)
        + ")\n}\n"@);
    let head = "#[wasm_bindgen]\npub fn "@ + d.name
        + "(args: String) -> String {\n    let ("@ + params_text(ParamStyle::Names, d.params)
        + ") = ::json5::from_str::<("@ + params_text(ParamStyle::Types, d.params)
        + ")>(&args)\n        .expect(\"Could not deserialize host-provided arguments of the method '"@
        + d.name
        + "'\");\n    let mut ctx = __internal_mlib::MAPP_GLOBAL.write()\n        .expect(\"Global state of the Mapp became poisoned\");\n    let ctx = ctx.as_mut()\n        .expect(\"Method '"@
        + d.name + "' called without initialization of the Mapp.\");\n    let result: "@
        + d.return_type + " = "@;
    let tail = ");\n    ::json5::to_string(&result)\n        .expect(\"Could not serialize the result of calling the method '"@
        + d.name + "'\")\n}\n"@;
    assert(client_exported_fn_spec(d, implementor) =~= head + native_call_text(d, implementor, "ctx"@) + tail);
    assert forall|r1: Seq<char>, r2: Seq<char>|
        native_call_text(d, implementor, r1) == native_call_text(d, implementor, r2) implies r1 == r2 by {
        let a = "<"@ + implementor + " as Mapp>::"@ + d.name + "("@;
        let z = ", "@ + params_text(ParamStyle::Names, d.params);
        let t1 = native_call_text(d, implementor, r1);
        let t2 = native_call_text(d, implementor, r2);
        assert(t1 =~= a + (r1 + z));
        assert(t2 =~= a + (r2 + z));
        assert((r1 + z) =~= t1.subrange(a.len() as int, t1.len() as int));
        assert((r2 + z) =~= t2.subrange(a.len() as int, t2.len() as int));
        assert(r1 =~= (r1 + z).subrange(0, r1.len() as int));
        assert(r2 =~= (r2 + z).subrange(0, r2.len() as int));
    }
}

/// The parts of the binding sets that are written once per method.
#[derive(Clone, Copy)]
pub enum Emission {
    ClientHeader,
    ClientExport,
    Delegate,
    HostHeader,
    HostImported,
    HostImportedHeader,
}

pub open spec fn emit_one_spec(kind: Emission, d: DescriptorModel, implementor: Seq<char>) -> Seq<char> {
    match kind {
        Emission::ClientHeader => client_header_spec(d),
        Emission::ClientExport => client_exported_fn_spec(d, implementor),
        Emission::Delegate => delegate_from_native_spec(d, implementor),
        Emission::HostHeader => host_header_spec(d),
        Emission::HostImported => host_imported_fn_spec(d),
        Emission::HostImportedHeader => host_imported_fn_header_spec(d),
    }
}

/// One emission for every method of the table, in table order.
pub open spec fn emit_all_spec(kind: Emission, ds: Seq<DescriptorModel>, implementor: Seq<char>) -> Seq<char>
    decreases ds.len(),
{
    if ds.len() == 0 {
        Seq::empty()
    } else {
        emit_all_spec(kind, ds.drop_last(), implementor) + emit_one_spec(kind, ds.last(), implementor)
    }
}

pub open spec fn table_model(headers: Seq<MethodDescriptor>) -> Seq<DescriptorModel> {
    headers.map_values(|d: MethodDescriptor| d@)
}

fn push_all(out: &mut String, kind: Emission, headers: &[MethodDescriptor], implementor: &str)
    ensures
        final(out)@ == old(out)@ + emit_all_spec(kind, table_model(headers@), implementor@),
{
    let ghost start = out@;
    let ghost model = table_model(headers@);
    let mut i: usize = 0;
    while i < headers.len()
        invariant
            i <= headers@.len(),
            model == table_model(headers@),
            out@ == start + emit_all_spec(kind, model.take(i as int), implementor@),
        decreases headers@.len() - i,
    {
        let d = &headers[i];
        let piece = match kind {
            Emission::ClientHeader => d.to_client_header_text(),
            Emission::ClientExport => d.to_client_exported_fn_text(implementor),
            Emission::Delegate => d.to_fn_delegate_from_native_text(implementor),
            Emission::HostHeader => d.to_host_header_text(),
            Emission::HostImported => d.to_host_imported_fn_text(),
            Emission::HostImportedHeader => d.to_host_imported_fn_header_text(),
        };
        out.append(piece.as_str());
        proof {
            assert(model.take(i + 1).drop_last() =~= model.take(i as int));
            assert(model.take(i + 1).last() == model[i as int]);
            assert(out@ =~= start + emit_all_spec(kind, model.take(i + 1), implementor@));
        }
        i = i + 1;
    }
    proof {
        assert(model.take(i as int) =~= model);
    }
}

/// Guest bindings: the `Mapp` trait, the global plugin slot, the delegate
/// impl for in-process use, `initialize`, `api_version` and one export per
/// method, followed by the annotated item itself.
///
/// The emitted module keeps the instance in its own process-wide `RwLock`
/// slot: an empty slot is the uninitialized phase and a poisoned lock the
/// poisoned one. [`crate::guard::Guard`] and [`crate::guard::dispatch`] are
/// the verified form of that slot for guests that link this library and
/// route their exports through it; the emitted text does not call them.
pub open spec fn client_interface_spec(implementor: Seq<char>, input: Seq<char>, ds: Seq<DescriptorModel>) -> Seq<char> {
    "mod __internal_mlib {\n    use ::std::marker::PhantomData;\n    use ::std::sync::RwLock;\n    use ::lazy_static::lazy_static;\n    use super::"@
        + implementor + ";\n\n    pub trait Mapp {\n        fn new() -> Self;\n"@
        + emit_all_spec(Emission::ClientHeader, ds, implementor)
        + "    }\n\n    #[allow(dead_code)]\n    struct TraitGuard<T: Mapp>(PhantomData<T>);\n    const ENSURE_MAPP_IS_IMPLEMENTED: TraitGuard<"@
        + implementor + "> = TraitGuard(PhantomData);\n\n    lazy_static! {\n        pub static ref MAPP_GLOBAL: RwLock<Option<"@
        + implementor + ">> = RwLock::new(None);\n    }\n\n    impl mlib::MappInterface for "@
        + implementor + " {\n"@
        + emit_all_spec(Emission::Delegate, ds, implementor)
        + "    }\n}\n\npub use __internal_mlib::Mapp;\n\n#[wasm_bindgen]\npub fn initialize() {\n    *(__internal_mlib::MAPP_GLOBAL).write()\n        .expect(\"Global state of the Mapp became poisoned\")\n        = Some(<"@
        + implementor + " as Mapp>::new());\n}\n\n#[wasm_bindgen]\npub fn api_version() -> String {\n    \""@
        + version_text() + "\".to_string()\n}\n\n"@
        + emit_all_spec(Emission::ClientExport, ds, implementor)
        + input
}

/// Host bindings: the raw export set, the typed façade that initializes the
/// guest on construction, and its typed methods.
pub open spec fn host_interface_spec(implementor: Seq<char>, ds: Seq<DescriptorModel>) -> Seq<char> {
    "#[wasmtime_rust::wasmtime]\npub trait "@ + implementor
        + "Exports {\n    fn initialize(&mut self);\n    fn api_version(&mut self) -> String;\n"@
        + emit_all_spec(Emission::HostHeader, ds, implementor)
        + "}\n\npub struct "@ + implementor + " {\n    exports: "@ + implementor
        + "Exports,\n}\n\nimpl "@ + implementor + " {\n    pub fn initialize(exports: "@ + implementor
        + "Exports) -> Self {\n        let mut mapp = "@ + implementor
        + " { exports };\n        mapp.exports.initialize();\n        mapp\n    }\n}\n\nimpl mlib::MappInterface for "@
        + implementor + " {\n"@
        + emit_all_spec(Emission::HostImported, ds, implementor)
        + "}\n"@
}

/// Native bindings: a trait with the same methods, no encoding, and a
/// default `api_version`.
pub open spec fn typed_interface_spec(implementor: Seq<char>, ds: Seq<DescriptorModel>) -> Seq<char> {
    "pub trait "@ + implementor + " {\n    fn api_version(&mut self) -> String {\n        \""@
        + version_text() + "\".to_string()\n    }\n\n"@
        + emit_all_spec(Emission::HostImportedHeader, ds, implementor)
        + "}\n"@
}

/// The guest bindings for a given implementing type.
pub fn client_interface_text(implementor: &str, input: &str, headers: &[MethodDescriptor]) -> (r: String)
    ensures
        r@ == client_interface_spec(implementor@, input@, table_model(headers@)),
{
    let mut s = String::from_str("mod __internal_mlib {\n    use ::std::marker::PhantomData;\n    use ::std::sync::RwLock;\n    use ::lazy_static::lazy_static;\n    use super::");
    s.append(implementor);
    s.append(";\n\n    pub trait Mapp {\n        fn new() -> Self;\n");
    push_all(&mut s, Emission::ClientHeader, headers, implementor);
    s.append("    }\n\n    #[allow(dead_code)]\n    struct TraitGuard<T: Mapp>(PhantomData<T>);\n    const ENSURE_MAPP_IS_IMPLEMENTED: TraitGuard<");
    s.append(implementor);
    s.append("> = TraitGuard(PhantomData);\n\n    lazy_static! {\n        pub static ref MAPP_GLOBAL: RwLock<Option<");
    s.append(implementor);
    s.append(">> = RwLock::new(None);\n    }\n\n    impl mlib::MappInterface for ");
    s.append(implementor);
    s.append(" {\n");
    push_all(&mut s, Emission::Delegate, headers, implementor);
    s.append("    }\n}\n\npub use __internal_mlib::Mapp;\n\n#[wasm_bindgen]\npub fn initialize() {\n    *(__internal_mlib::MAPP_GLOBAL).write()\n        .expect(\"Global state of the Mapp became poisoned\")\n        = Some(<");
    s.append(implementor);
    s.append(" as Mapp>::new());\n}\n\n#[wasm_bindgen]\npub fn api_version() -> String {\n    \"");
    let version = api_version();
    s.append(version.as_str());
    s.append("\".to_string()\n}\n\n");
    push_all(&mut s, Emission::ClientExport, headers, implementor);
    s.append(input);
    s
}

/// The host bindings for a given implementing type.
pub fn host_interface_text(implementor: &str, headers: &[MethodDescriptor]) -> (r: String)
    ensures
        r@ == host_interface_spec(implementor@, table_model(headers@)),
{
    let mut s = String::from_str("#[wasmtime_rust::wasmtime]\npub trait ");
    s.append(implementor);
    s.append("Exports {\n    fn initialize(&mut self);\n    fn api_version(&mut self) -> String;\n");
    push_all(&mut s, Emission::HostHeader, headers, implementor);
    s.append("}\n\npub struct ");
    s.append(implementor);
    s.append(" {\n    exports: ");
    s.append(implementor);
    s.append("Exports,\n}\n\nimpl ");
    s.append(implementor);
    s.append(" {\n    pub fn initialize(exports: ");
    s.append(implementor);
    s.append("Exports) -> Self {\n        let mut mapp = ");
    s.append(implementor);
    s.append(" { exports };\n        mapp.exports.initialize();\n        mapp\n    }\n}\n\nimpl mlib::MappInterface for ");
    s.append(implementor);
    s.append(" {\n");
    push_all(&mut s, Emission::HostImported, headers, implementor);
    s.append("}\n");
    s
}

/// The native bindings for a given trait name.
pub fn typed_interface_text(implementor: &str, headers: &[MethodDescriptor]) -> (r: String)
    ensures
        r@ == typed_interface_spec(implementor@, table_model(headers@)),
{
    let mut s = String::from_str("pub trait ");
    s.append(implementor);
    s.append(" {\n    fn api_version(&mut self) -> String {\n        \"");
    let version = api_version();
    s.append(version.as_str());
    s.append("\".to_string()\n    }\n\n");
    push_all(&mut s, Emission::HostImportedHeader, headers, implementor);
    s.append("}\n");
    s
}

/// Relies on `syn::parse_str::<syn::DeriveInput>`: parses a struct, enum or
/// union declaration and yields its identifier. Which lexer runs (and so how
/// a non-ASCII identifier is normalized) depends on the process, so nothing
/// is promised of the outcome.
#[verifier::external_body]
fn parse_type_name(input: &str) -> (r: Option<String>) {
    syn::parse_str::<syn::DeriveInput>(input).ok().map(|d| d.ident.to_string())
}

/// Guest bindings for the type that `input` declares, followed by `input`;
/// returns the parsed type name with the text, `None` where `input` is no
/// struct, enum or union declaration.
pub fn generate_client_interface(input: &str, headers: &[MethodDescriptor]) -> (r: Option<(String, String)>)
    ensures
        r matches Some(p) ==> p.1@ == client_interface_spec(p.0@, input@, table_model(headers@)),
{
    match parse_type_name(input) {
        Some(name) => {
            let text = client_interface_text(name.as_str(), input, headers);
            Some((name, text))
        },
        None => None,
    }
}

/// Host bindings for the type that `input` declares; `input` itself is
/// replaced. Returns the parsed type name with the text.
pub fn generate_host_interface(input: &str, headers: &[MethodDescriptor]) -> (r: Option<(String, String)>)
    ensures
        r matches Some(p) ==> p.1@ == host_interface_spec(p.0@, table_model(headers@)),
{
    match parse_type_name(input) {
        Some(name) => {
            let text = host_interface_text(name.as_str(), headers);
            Some((name, text))
        },
        None => None,
    }
}

/// Native bindings: a trait named after the type that `input` declares.
/// Returns the parsed type name with the text.
pub fn generate_typed_interface(input: &str, headers: &[MethodDescriptor]) -> (r: Option<(String, String)>)
    ensures
        r matches Some(p) ==> p.1@ == typed_interface_spec(p.0@, table_model(headers@)),
{
    match parse_type_name(input) {
        Some(name) => {
            let text = typed_interface_text(name.as_str(), headers);
            Some((name, text))
        },
        None => None,
    }
}

pub open spec fn param_spec(name: Seq<char>, ty: Seq<char>) -> (Seq<char>, Seq<char>) {
    (name, ty)
}

/// The methods of the plugin interface, in order.
pub open spec fn signature_table() -> Seq<DescriptorModel> {
    seq![
        DescriptorModel {
            name: "update"@,
            params: seq![param_spec("elapsed"@, "std::time::Duration"@)],
            return_type: "()"@,
        },
        DescriptorModel { name: "send_command"@, params: seq![], return_type: "Option<mlib::Command>"@ },
        DescriptorModel {
            name: "receive_command_response"@,
            params: seq![param_spec("response"@, "mlib::CommandResponse"@)],
            return_type: "()"@,
        },
        DescriptorModel { name: "flush_io"@, params: seq![], return_type: "mlib::IO"@ },
        DescriptorModel {
            name: "receive_event"@,
            params: seq![param_spec("event"@, "mlib::Event"@)],
            return_type: "()"@,
        },
    ]
}

fn param(name: &str, ty: &str) -> (r: Param)
    ensures
        param_model(r) == param_spec(name@, ty@),
{
    Param { name: String::from_str(name), ty: String::from_str(ty) }
}

fn descriptor(name: &str, params: Vec<Param>, return_type: &str) -> (r: MethodDescriptor)
    ensures
        r@ == (DescriptorModel {
            name: name@,
            params: params@.map_values(|p: Param| param_model(p)),
            return_type: return_type@,
        }),
{
    MethodDescriptor { name: String::from_str(name), params, return_type: String::from_str(return_type) }
}

/// Builds the signature table.
pub fn mapp_function_headers() -> (r: Vec<MethodDescriptor>)
    ensures
        table_model(r@) == signature_table(),
{
    let mut r: Vec<MethodDescriptor> = Vec::new();
    let mut ps = Vec::new();
    ps.push(param("elapsed", "std::time::Duration"));
    let ghost m0 = ps@.map_values(|p: Param| param_model(p));
    assert(m0 =~= seq![param_spec("elapsed"@, "std::time::Duration"@)]);
    r.push(descriptor("update", ps, "()"));
    let none: Vec<Param> = Vec::new();
    assert(none@.map_values(|p: Param| param_model(p)) =~= Seq::<(Seq<char>, Seq<char>)>::empty());
    r.push(descriptor("send_command", none, "Option<mlib::Command>"));
    let mut ps = Vec::new();
    ps.push(param("response", "mlib::CommandResponse"));
    let ghost m2 = ps@.map_values(|p: Param| param_model(p));
    assert(m2 =~= seq![param_spec("response"@, "mlib::CommandResponse"@)]);
    r.push(descriptor("receive_command_response", ps, "()"));
    let none: Vec<Param> = Vec::new();
    assert(none@.map_values(|p: Param| param_model(p)) =~= Seq::<(Seq<char>, Seq<char>)>::empty());
    r.push(descriptor("flush_io", none, "mlib::IO"));
    let mut ps = Vec::new();
    ps.push(param("event", "mlib::Event"));
    let ghost m4 = ps@.map_values(|p: Param| param_model(p));
    assert(m4 =~= seq![param_spec("event"@, "mlib::Event"@)]);
    r.push(descriptor("receive_event", ps, "()"));
    assert(table_model(r@) =~= signature_table());
    r
}

/// Which binding set an attribute argument asks for.
pub enum BindingMode {
    Guest,
    Host,
    Native,
}

pub open spec fn mode_of(args: Seq<char>) -> BindingMode {
    if args == "host"@ {
        BindingMode::Host
    } else if args == "interface"@ {
        BindingMode::Native
    } else {
        BindingMode::Guest
    }
}

/// The binding set that `args` selects, for the type named `name` declared
/// by `input`.
pub open spec fn mapp_text(args: Seq<char>, name: Seq<char>, input: Seq<char>) -> Seq<char> {
    match mode_of(args) {
        BindingMode::Host => host_interface_spec(name, signature_table()),
        BindingMode::Native => typed_interface_spec(name, signature_table()),
        BindingMode::Guest => client_interface_spec(name, input, signature_table()),
    }
}

pub(crate) fn str_eq(a: &str, b: &str) -> (r: bool)
    ensures
        r == (a@ == b@),
{
    let n = a.unicode_len();
    if n != b.unicode_len() {
        return false;
    }
    let mut i: usize = 0;
    while i < n
        invariant
            n == a@.len(),
            n == b@.len(),
            i <= n,
            forall|k: int| 0 <= k < i ==> a@[k] == b@[k],
        decreases n - i,
    {
        if a.get_char(i) != b.get_char(i) {
            return false;
        }
        i = i + 1;
    }
    assert(a@ =~= b@);
    true
}

/// Whether a host built against this binding compiler accepts a guest that
/// reports `reported` as its binding version: only the same version is
/// accepted.
pub fn accepts_guest_version(reported: &str) -> (r: bool)
    ensures
        r == (reported@ == version_text()),
{
    str_eq(reported, "0.1.0")
}

/// The binding set that the attribute argument `args` selects (`host`,
/// `interface`, anything else for the guest), for the item `input`.
pub fn mapp(args: &str, input: &str) -> (r: Option<String>)
    ensures
        r matches Some(t) ==> exists|name: Seq<char>| t@ == mapp_text(args@, name, input@),
{
    let headers = mapp_function_headers();
    let generated = if str_eq(args, "host") {
        generate_host_interface(input, headers.as_slice())
    } else if str_eq(args, "interface") {
        generate_typed_interface(input, headers.as_slice())
    } else {
        generate_client_interface(input, headers.as_slice())
    };
    match generated {
        Some((name, text)) => {
            assert(text@ == mapp_text(args@, name@, input@));
            Some(text)
        },
        None => None,
    }
}

} // verus!
