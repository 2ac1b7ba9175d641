//! Binding protocol between a host process and a sandboxed plugin: the
//! message schema that crosses the boundary, the emitter of the guest, host
//! and native binding sets, the lifecycle of the plugin instance, and the
//! host's bookkeeping of outstanding commands.
use vstd::prelude::*;

pub mod bindings;
pub mod driver;
pub mod event;
pub mod guard;
pub mod schema;

pub use bindings::{api_version, mapp, MethodDescriptor, Param};
pub use driver::CommandLedger;
pub use event::{
    Device, DeviceEvent, ElementState, Event, Force, KeyboardInput, ModifiersState, MouseButton,
    MouseScrollDelta, Theme, Touch, TouchPhase, VirtualKeyCode, WindowEvent,
};
pub use guard::{dispatch, initialize, Call, Guard, GuardError, Mapp, MappInterface, Phase, Reply};
pub use schema::{
    Base64ByteSlice, Command, CommandKind, CommandName, CommandResponse, CommandResponseKind, Entity,
    EyeView, Intersection, Mat4, Model, Vec3, ViewFov, IO,
};

verus! {

} // verus!
