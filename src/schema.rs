//! The typed payloads that cross the plugin boundary: commands and their
//! responses, handles, and the output buffers.
use vstd::prelude::*;
use vstd::string::StringSliceAdditionalSpecFns;
use vstd::utf8::is_ascii_chars;
use crate::event::F32Bits;

verus! {

/// Output accumulated by the plugin, drained by the host once per tick.
#[derive(Debug, Clone, Default)]
pub struct IO {
    pub out: Vec<u8>,
    pub err: Vec<u8>,
}

/// The standard, padded base64 text of a byte sequence.
pub uninterp spec fn base64_text(b: Seq<u8>) -> Seq<char>;

#[verifier::external_type_specification]
#[verifier::external_body]
pub struct ExDecodeError(base64::DecodeError);

/// Relies on `base64::encode`: standard alphabet (ASCII) with padding, four
/// characters for each started group of three bytes; distinct byte
/// sequences get distinct texts, since the encoding is decodable. It panics
/// only where that length overflows `usize`.
#[verifier::external_body]
fn encode_base64(bytes: &[u8]) -> (r: String)
    requires
        4 * ((bytes@.len() + 2) / 3) <= usize::MAX,
    ensures
        r@ == base64_text(bytes@),
        r@.len() == 4 * ((bytes@.len() + 2) / 3),
        is_ascii_chars(r@),
        forall|b: Seq<u8>| #[trigger] base64_text(b) == r@ ==> b == bytes@,
{
    base64::encode(bytes)
}

/// Relies on `base64::decode`: the text that `base64::encode` made of some
/// bytes decodes to exactly those bytes, and every four input bytes give at
/// most three output bytes. It panics only where the input's length plus
/// three overflows `usize`.
#[verifier::external_body]
fn decode_base64(text: &str) -> (r: Result<Vec<u8>, base64::DecodeError>)
    requires
        text.spec_bytes().len() <= usize::MAX - 3,
    ensures
        forall|b: Seq<u8>| #[trigger] base64_text(b) == text@ ==> r is Ok && r->Ok_0@ == b,
        r matches Ok(v) ==> 4 * v@.len() <= 3 * text.spec_bytes().len(),
{
    base64::decode(text)
}

/// A byte sequence carried as base64 text, so that a textual wire format can
/// hold it.
#[derive(Debug)]
pub struct Base64ByteSlice {
    text: String,
}

impl Base64ByteSlice {
    #[verifier::type_invariant]
    spec fn encodes_some_bytes(self) -> bool {
        &&& is_ascii_chars(self.text@)
        &&& self.text@.len() <= usize::MAX - 3
        &&& exists|b: Seq<u8>| base64_text(b) == self.text@
    }

    /// The text held.
    pub closed spec fn text(self) -> Seq<char> {
        self.text@
    }

    /// The bytes whose encoding is held.
    pub closed spec fn bytes(self) -> Seq<u8> {
        choose|b: Seq<u8>| base64_text(b) == self.text@
    }

    /// Encodes `bytes`; this always succeeds where the text's length fits.
    pub fn from_bytes(bytes: &[u8]) -> (r: Base64ByteSlice)
        requires
            4 * ((bytes@.len() + 2) / 3) <= usize::MAX - 3,
        ensures
            r.text() == base64_text(bytes@),
            r.bytes() == bytes@,
            r.text().len() == 4 * ((bytes@.len() + 2) / 3),
            is_ascii_chars(r.text()),
            forall|b: Seq<u8>| #[trigger] base64_text(b) == r.text() ==> b == bytes@,
    {
        let text = encode_base64(bytes);
        Base64ByteSlice { text }
    }

    /// Takes base64 text from the wire. It is accepted only where it is
    /// exactly the encoding of some bytes: text that encodes no bytes (tampered
    /// or not canonical) gives `None`.
    pub fn from_encoded(text: &str) -> (r: Option<Base64ByteSlice>)
        ensures
            r matches Some(s) ==> s.text() == text@ && base64_text(s.bytes()) == text@,
            !(exists|b: Seq<u8>| base64_text(b) == text@) ==> r is None,
            forall|b: Seq<u8>| #![trigger base64_text(b)]
                base64_text(b) == text@ && is_ascii_chars(text@) && text@.len() <= usize::MAX - 16
                    ==> (r matches Some(s) && s.bytes() == b),
    {
        broadcast use vstd::string::is_ascii_spec_bytes;

        if !text.is_ascii() || text.unicode_len() > usize::MAX - 16 {
            return None;
        }
        assert(text.spec_bytes().len() == text@.len());
        match decode_base64(text) {
            Ok(v) => {
                let ghost n = v@.len();
                let ghost l = text@.len();
                assert(4 * ((n + 2) / 3) <= l + 3) by (nonlinear_arith)
                    requires
                        4 * n <= 3 * l,
                        n >= 0,
                ;
                let s = Base64ByteSlice::from_bytes(v.as_slice());
                if crate::bindings::str_eq(s.as_str(), text) {
                    Some(s)
                } else {
                    None
                }
            },
            Err(_) => None,
        }
    }

    /// The base64 text.
    pub fn as_str(&self) -> (r: &str)
        ensures
            r@ == self.text(),
    {
        self.text.as_str()
    }

    /// Decodes the bytes back.
    pub fn into_bytes(self) -> (r: Vec<u8>)
        ensures
            r@ == self.bytes(),
    {
        broadcast use vstd::string::is_ascii_spec_bytes;

        proof {
            use_type_invariant(&self);
        }
        let ghost b = self.bytes();
        let text = self.text.as_str();
        assert(vstd::string::is_ascii(text));
        assert(text.spec_bytes().len() == text@.len());
        match decode_base64(text) {
            Ok(v) => v,
            Err(_) => {
                proof {
                    assert(base64_text(b) == self.text@);
                }
                Vec::new()
            },
        }
    }
}

impl Default for Base64ByteSlice {
    /// The encoding of no bytes.
    fn default() -> (r: Base64ByteSlice)
        ensures
            r.bytes() == Seq::<u8>::empty(),
    {
        let none: Vec<u8> = Vec::new();
        Base64ByteSlice::from_bytes(none.as_slice())
    }
}

impl Clone for Base64ByteSlice {
    fn clone(&self) -> (r: Base64ByteSlice)
        ensures
            r.text() == self.text(),
    {
        proof {
            use_type_invariant(self);
        }
        Base64ByteSlice { text: self.text.clone() }
    }
}

/// Handle of a model tracked by the host.
#[derive(Debug, Clone, Copy, PartialEq, Eq, Hash, Structural)]
pub struct Model(pub usize);

/// Handle of an entity tracked by the host.
#[derive(Debug, Clone, Copy, PartialEq, Eq, Hash, Structural)]
pub struct Entity(pub usize);

/// A 3-vector, its components as IEEE-754 bit patterns.
#[derive(Debug, Clone, Copy, PartialEq, Eq, Default)]
pub struct Vec3(pub [F32Bits; 3]);

/// A 4×4 column-major matrix, its entries as IEEE-754 bit patterns.
#[derive(Debug, Clone, Copy, PartialEq, Eq, Default)]
pub struct Mat4(pub [F32Bits; 16]);

/// Field of view of a view, angles as IEEE-754 bit patterns.
#[derive(Debug, Clone, Copy, PartialEq, Eq, Default)]
pub struct ViewFov {
    pub angle_left: F32Bits,
    pub angle_right: F32Bits,
    pub angle_up: F32Bits,
    pub angle_down: F32Bits,
}

/// One view of a display medium (an eye of a headset, a window): its pose
/// and its field of view.
#[derive(Debug, Clone, Copy, PartialEq, Eq, Default)]
pub struct EyeView {
    pub pose: Mat4,
    pub fov: ViewFov,
}

#[derive(Debug, Clone, Copy, PartialEq, Eq)]
pub struct Intersection {
    pub position: Vec3,
    pub distance_from_origin: F32Bits,
    pub entity: Entity,
}

/// A request from the plugin for the host to perform.
#[derive(Debug, Clone)]
pub struct Command {
    pub id: usize,
    pub kind: CommandKind,
}

/// The host's result for the command with id `command_id`.
#[derive(Debug, Clone)]
pub struct CommandResponse {
    pub command_id: usize,
    pub kind: CommandResponseKind,
}

/// The operations a plugin can request, with their arguments.
#[derive(Debug, Clone)]
pub enum CommandKind {
    ModelCreate { data: Base64ByteSlice },
    EntityRootGet,
    EntityCreate,
    EntityParentSet { entity: Entity, parent_entity: Option<Entity> },
    EntityModelSet { entity: Entity, model: Option<Model> },
    EntityTransformSet { entity: Entity, transform: Option<Mat4> },
    GetViewOrientation {},
    RayTrace { origin: Vec3, direction: Vec3 },
    Exit,
}

/// The results of the operations, one variant for each of `CommandKind`.
#[derive(Debug, Clone)]
pub enum CommandResponseKind {
    ModelCreate { model: Model },
    EntityRootGet { root_entity: Entity },
    EntityCreate { entity: Entity },
    EntityParentSet { previous_parent_entity: Option<Entity> },
    EntityModelSet { previous_model: Option<Model> },
    EntityTransformSet { previous_transform: Option<Mat4> },
    GetViewOrientation { views_per_medium: Vec<Option<Vec<EyeView>>> },
    RayTrace { closest_intersection: Option<Intersection> },
    Exit,
}

/// The variant names shared by `CommandKind` and `CommandResponseKind`.
#[derive(Debug, Clone, Copy, PartialEq, Eq, Hash, Structural)]
pub enum CommandName {
    ModelCreate,
    EntityRootGet,
    EntityCreate,
    EntityParentSet,
    EntityModelSet,
    EntityTransformSet,
    GetViewOrientation,
    RayTrace,
    Exit,
}

pub open spec fn request_name(k: CommandKind) -> CommandName {
    match k {
        CommandKind::ModelCreate { .. } => CommandName::ModelCreate,
        CommandKind::EntityRootGet => CommandName::EntityRootGet,
        CommandKind::EntityCreate => CommandName::EntityCreate,
        CommandKind::EntityParentSet { .. } => CommandName::EntityParentSet,
        CommandKind::EntityModelSet { .. } => CommandName::EntityModelSet,
        CommandKind::EntityTransformSet { .. } => CommandName::EntityTransformSet,
        CommandKind::GetViewOrientation { .. } => CommandName::GetViewOrientation,
        CommandKind::RayTrace { .. } => CommandName::RayTrace,
        CommandKind::Exit => CommandName::Exit,
    }
}

pub open spec fn response_name(k: CommandResponseKind) -> CommandName {
    match k {
        CommandResponseKind::ModelCreate { .. } => CommandName::ModelCreate,
        CommandResponseKind::EntityRootGet { .. } => CommandName::EntityRootGet,
        CommandResponseKind::EntityCreate { .. } => CommandName::EntityCreate,
        CommandResponseKind::EntityParentSet { .. } => CommandName::EntityParentSet,
        CommandResponseKind::EntityModelSet { .. } => CommandName::EntityModelSet,
        CommandResponseKind::EntityTransformSet { .. } => CommandName::EntityTransformSet,
        CommandResponseKind::GetViewOrientation { .. } => CommandName::GetViewOrientation,
        CommandResponseKind::RayTrace { .. } => CommandName::RayTrace,
        CommandResponseKind::Exit => CommandName::Exit,
    }
}

impl CommandKind {
    pub fn name(&self) -> (r: CommandName)
        ensures
            r == request_name(*self),
    {
        match self {
            CommandKind::ModelCreate { .. } => CommandName::ModelCreate,
            CommandKind::EntityRootGet => CommandName::EntityRootGet,
            CommandKind::EntityCreate => CommandName::EntityCreate,
            CommandKind::EntityParentSet { .. } => CommandName::EntityParentSet,
            CommandKind::EntityModelSet { .. } => CommandName::EntityModelSet,
            CommandKind::EntityTransformSet { .. } => CommandName::EntityTransformSet,
            CommandKind::GetViewOrientation { .. } => CommandName::GetViewOrientation,
            CommandKind::RayTrace { .. } => CommandName::RayTrace,
            CommandKind::Exit => CommandName::Exit,
        }
    }
}

impl CommandResponseKind {
    pub fn name(&self) -> (r: CommandName)
        ensures
            r == response_name(*self),
    {
        match self {
            CommandResponseKind::ModelCreate { .. } => CommandName::ModelCreate,
            CommandResponseKind::EntityRootGet { .. } => CommandName::EntityRootGet,
            CommandResponseKind::EntityCreate { .. } => CommandName::EntityCreate,
            CommandResponseKind::EntityParentSet { .. } => CommandName::EntityParentSet,
            CommandResponseKind::EntityModelSet { .. } => CommandName::EntityModelSet,
            CommandResponseKind::EntityTransformSet { .. } => CommandName::EntityTransformSet,
            CommandResponseKind::GetViewOrientation { .. } => CommandName::GetViewOrientation,
            CommandResponseKind::RayTrace { .. } => CommandName::RayTrace,
            CommandResponseKind::Exit => CommandName::Exit,
        }
    }
}

/// Every variant name of the request kinds names a response variant, and
/// every response variant name names a request variant.
pub proof fn variant_parity(n: CommandName)
    ensures
        exists|k: CommandKind| request_name(k) == n,
        exists|k: CommandResponseKind| response_name(k) == n,
{
    let (q, r) = match n {
        CommandName::ModelCreate => (
            CommandKind::ModelCreate { data: arbitrary() },
            CommandResponseKind::ModelCreate { model: arbitrary() },
        ),
        CommandName::EntityRootGet => (
            CommandKind::EntityRootGet,
            CommandResponseKind::EntityRootGet { root_entity: arbitrary() },
        ),
        CommandName::EntityCreate => (
            CommandKind::EntityCreate,
            CommandResponseKind::EntityCreate { entity: arbitrary() },
        ),
        CommandName::EntityParentSet => (
            CommandKind::EntityParentSet { entity: arbitrary(), parent_entity: arbitrary() },
            CommandResponseKind::EntityParentSet { previous_parent_entity: arbitrary() },
        ),
        CommandName::EntityModelSet => (
            CommandKind::EntityModelSet { entity: arbitrary(), model: arbitrary() },
            CommandResponseKind::EntityModelSet { previous_model: arbitrary() },
        ),
        CommandName::EntityTransformSet => (
            CommandKind::EntityTransformSet { entity: arbitrary(), transform: arbitrary() },
            CommandResponseKind::EntityTransformSet { previous_transform: arbitrary() },
        ),
        CommandName::GetViewOrientation => (
            CommandKind::GetViewOrientation {},
            CommandResponseKind::GetViewOrientation { views_per_medium: arbitrary() },
        ),
        CommandName::RayTrace => (
            CommandKind::RayTrace { origin: arbitrary(), direction: arbitrary() },
            CommandResponseKind::RayTrace { closest_intersection: arbitrary() },
        ),
        CommandName::Exit => (CommandKind::Exit, CommandResponseKind::Exit),
    };
    assert(request_name(q) == n);
    assert(response_name(r) == n);
}

} // verus!
