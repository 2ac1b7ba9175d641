//! The plugin instance's lifecycle inside the guest, the native interface a
//! plugin implements, and the dispatch of one exported call.
use vstd::prelude::*;
use crate::event::Event;
use crate::schema::{Command, CommandResponse, IO};

verus! {

/// Where the plugin slot stands.
#[derive(Debug, Clone, Copy, PartialEq, Eq, Structural)]
pub enum Phase {
    /// No instance yet.
    Uninitialized,
    /// An instance is stored and free.
    Ready,
    /// The instance is handed out to a call that has not finished.
    Held,
    /// A call failed while it held the instance; terminal.
    Poisoned,
}

/// Why an exported call could not reach the plugin instance.
#[derive(Debug, Clone, Copy, PartialEq, Eq, Structural)]
pub enum GuardError {
    Uninitialized,
    Poisoned,
}

/// The operations on the slot: storing a fresh instance, taking the instance
/// out for a call, and handing it back when the call completes.
#[derive(Debug, Clone, Copy, PartialEq, Eq, Structural)]
pub enum Op {
    Initialize,
    Begin,
    End,
}

/// The phase after `op` and its outcome.
pub open spec fn step(p: Phase, op: Op) -> (Phase, Result<(), GuardError>) {
    match op {
        Op::Initialize => match p {
            Phase::Uninitialized | Phase::Ready => (Phase::Ready, Ok(())),
            _ => (Phase::Poisoned, Err(GuardError::Poisoned)),
        },
        Op::Begin => match p {
            Phase::Uninitialized => (Phase::Uninitialized, Err(GuardError::Uninitialized)),
            Phase::Ready => (Phase::Held, Ok(())),
            _ => (Phase::Poisoned, Err(GuardError::Poisoned)),
        },
        Op::End => match p {
            Phase::Held => (Phase::Ready, Ok(())),
            Phase::Uninitialized => (p, Err(GuardError::Uninitialized)),
            _ => (p, Err(GuardError::Poisoned)),
        },
    }
}

/// The phase after a sequence of operations.
pub open spec fn run(p: Phase, ops: Seq<Op>) -> Phase
    decreases ops.len(),
{
    if ops.len() == 0 {
        p
    } else {
        run(step(p, ops[0]).0, ops.subrange(1, ops.len() as int))
    }
}

/// The outcome of each operation of a sequence.
pub open spec fn outcomes(p: Phase, ops: Seq<Op>) -> Seq<Result<(), GuardError>>
    decreases ops.len(),
{
    if ops.len() == 0 {
        Seq::empty()
    } else {
        seq![step(p, ops[0]).1] + outcomes(step(p, ops[0]).0, ops.subrange(1, ops.len() as int))
    }
}

/// Once a call has taken the instance and not handed it back, every later
/// operation but that call's own completion fails as poisoned, and the slot
/// stays poisoned.
pub proof fn poisoning_propagates(p: Phase, ops: Seq<Op>)
    requires
        p == Phase::Held || p == Phase::Poisoned,
        forall|i: int| 0 <= i < ops.len() ==> ops[i] != Op::End,
    ensures
        outcomes(p, ops).len() == ops.len(),
        forall|i: int| 0 <= i < ops.len() ==> outcomes(p, ops)[i] == Err::<(), GuardError>(GuardError::Poisoned),
        ops.len() > 0 ==> run(p, ops) == Phase::Poisoned,
    decreases ops.len(),
{
    if ops.len() > 0 {
        let rest = ops.subrange(1, ops.len() as int);
        assert forall|i: int| 0 <= i < rest.len() implies rest[i] != Op::End by {
            assert(rest[i] == ops[i + 1]);
        }
        poisoning_propagates(Phase::Poisoned, rest);
        assert forall|i: int| 0 <= i < ops.len() implies outcomes(p, ops)[i] == Err::<(), GuardError>(GuardError::Poisoned) by {
            if i > 0 {
                assert(outcomes(p, ops)[i] == outcomes(Phase::Poisoned, rest)[i - 1]);
            }
        }
    }
}

/// Before the first `Initialize`, every call fails as uninitialized and the
/// slot stays empty.
pub proof fn uninitialized_calls_fail(ops: Seq<Op>)
    requires
        forall|i: int| 0 <= i < ops.len() ==> ops[i] != Op::Initialize,
    ensures
        outcomes(Phase::Uninitialized, ops).len() == ops.len(),
        forall|i: int| 0 <= i < ops.len() ==> outcomes(Phase::Uninitialized, ops)[i] == Err::<(), GuardError>(GuardError::Uninitialized),
        run(Phase::Uninitialized, ops) == Phase::Uninitialized,
    decreases ops.len(),
{
    if ops.len() > 0 {
        let p = Phase::Uninitialized;
        let rest = ops.subrange(1, ops.len() as int);
        assert forall|i: int| 0 <= i < rest.len() implies rest[i] != Op::Initialize by {
            assert(rest[i] == ops[i + 1]);
        }
        uninitialized_calls_fail(rest);
        assert forall|i: int| 0 <= i < ops.len() implies outcomes(p, ops)[i] == Err::<(), GuardError>(GuardError::Uninitialized) by {
            if i > 0 {
                assert(outcomes(p, ops)[i] == outcomes(p, rest)[i - 1]);
            }
        }
    }
}

/// While a call holds the instance, no other call can take it and no fresh
/// instance can replace it: only the holder's completion frees the slot.
pub proof fn single_writer(p: Phase, op: Op)
    requires
        step(p, Op::Begin).1 is Ok,
    ensures
        step(step(p, Op::Begin).0, op).1 is Ok <==> op == Op::End,
        step(step(p, Op::Begin).0, Op::End).0 == Phase::Ready,
{
}

/// Whether an executable result agrees with a modelled outcome.
pub open spec fn agrees<T>(r: Result<T, GuardError>, o: Result<(), GuardError>) -> bool {
    match r {
        Ok(_) => o is Ok,
        Err(e) => o == Err::<(), GuardError>(e),
    }
}

enum Slot<T> {
    Uninitialized,
    Ready(T),
    Held,
    Poisoned,
}

/// The holder of the single plugin instance.
pub struct Guard<T> {
    slot: Slot<T>,
}

impl<T> Guard<T> {
    pub closed spec fn phase(&self) -> Phase {
        match self.slot {
            Slot::Uninitialized => Phase::Uninitialized,
            Slot::Ready(_) => Phase::Ready,
            Slot::Held => Phase::Held,
            Slot::Poisoned => Phase::Poisoned,
        }
    }

    /// The stored instance, while the phase is `Ready`.
    pub closed spec fn instance(&self) -> T
        recommends
            self.phase() == Phase::Ready,
    {
        match self.slot {
            Slot::Ready(m) => m,
            _ => arbitrary(),
        }
    }

    pub fn new() -> (r: Guard<T>)
        ensures
            r.phase() == Phase::Uninitialized,
    {
        Guard { slot: Slot::Uninitialized }
    }

    /// Stores `instance`, discarding any previous one.
    pub fn initialize(&mut self, instance: T) -> (r: Result<(), GuardError>)
        ensures
            final(self).phase() == step(old(self).phase(), Op::Initialize).0,
            agrees(r, step(old(self).phase(), Op::Initialize).1),
            r is Ok ==> final(self).instance() == instance,
    {
        match self.slot {
            Slot::Uninitialized | Slot::Ready(_) => {
                self.slot = Slot::Ready(instance);
                Ok(())
            },
            _ => {
                self.slot = Slot::Poisoned;
                Err(GuardError::Poisoned)
            },
        }
    }

    /// Takes the instance out for one call; while it is out the slot holds
    /// nothing, so no second call can reach it.
    pub fn acquire(&mut self) -> (r: Result<T, GuardError>)
        ensures
            final(self).phase() == step(old(self).phase(), Op::Begin).0,
            agrees(r, step(old(self).phase(), Op::Begin).1),
            r matches Ok(m) ==> m == old(self).instance(),
    {
        let mut slot = Slot::Poisoned;
        core::mem::swap(&mut self.slot, &mut slot);
        match slot {
            Slot::Uninitialized => {
                self.slot = Slot::Uninitialized;
                Err(GuardError::Uninitialized)
            },
            Slot::Ready(m) => {
                self.slot = Slot::Held;
                Ok(m)
            },
            _ => Err(GuardError::Poisoned),
        }
    }

    /// Hands the instance back when the call that took it has completed.
    pub fn release(&mut self, instance: T)
        requires
            old(self).phase() == Phase::Held,
        ensures
            final(self).phase() == step(old(self).phase(), Op::End).0,
            final(self).instance() == instance,
    {
        self.slot = Slot::Ready(instance);
    }
}

/// The plugin interface, called directly in-process. An implementation
/// states, through the spec functions, how each method relates the plugin
/// before the call, the arguments, the value returned and the plugin after;
/// one that overrides none of them promises nothing.
pub trait MappInterface: Sized {
    /// `after` is the plugin once `update(elapsed)` ran on `before`.
    open spec fn updated(before: Self, elapsed: core::time::Duration, after: Self) -> bool {
        true
    }

    /// `send_command` on `before` returned `sent` and left `after`.
    open spec fn command_sent(before: Self, sent: Option<Command>, after: Self) -> bool {
        true
    }

    /// `after` is the plugin once `response` was delivered to `before`.
    open spec fn response_received(before: Self, response: CommandResponse, after: Self) -> bool {
        true
    }

    /// `flush_io` on `before` returned `io` and left `after`.
    open spec fn io_flushed(before: Self, io: IO, after: Self) -> bool {
        true
    }

    /// `after` is the plugin once `event` was delivered to `before`.
    open spec fn event_received(before: Self, event: Event, after: Self) -> bool {
        true
    }

    /// The version of the binding compiler.
    fn api_version(&mut self) -> String {
        crate::bindings::api_version()
    }

    fn update(&mut self, elapsed: core::time::Duration)
        ensures
            Self::updated(*old(self), elapsed, *final(self)),
    ;

    fn send_command(&mut self) -> (r: Option<Command>)
        ensures
            Self::command_sent(*old(self), r, *final(self)),
    ;

    fn receive_command_response(&mut self, response: CommandResponse)
        ensures
            Self::response_received(*old(self), response, *final(self)),
    ;

    fn flush_io(&mut self) -> (r: IO)
        ensures
            Self::io_flushed(*old(self), r, *final(self)),
    ;

    fn receive_event(&mut self, event: Event)
        ensures
            Self::event_received(*old(self), event, *final(self)),
    ;
}

/// A plugin that the guest constructs itself.
pub trait Mapp: MappInterface + Sized {
    fn new() -> Self;
}

/// One exported call with its decoded arguments, in declared order.
pub enum Call {
    Update(core::time::Duration),
    SendCommand,
    ReceiveCommandResponse(CommandResponse),
    FlushIo,
    ReceiveEvent(Event),
}

/// The value an exported call returns.
pub enum Reply {
    Unit,
    Command(Option<Command>),
    IO(IO),
}

/// Whether `reply` is what the method that `call` names returned when it ran
/// with the call's arguments on `before` and left `after`.
pub open spec fn call_ran<M: MappInterface>(before: M, call: Call, reply: Reply, after: M) -> bool {
    match call {
        Call::Update(elapsed) => reply is Unit && M::updated(before, elapsed, after),
        Call::SendCommand => reply matches Reply::Command(c) && M::command_sent(before, c, after),
        Call::ReceiveCommandResponse(response) => reply is Unit && M::response_received(before, response, after),
        Call::FlushIo => reply matches Reply::IO(io) && M::io_flushed(before, io, after),
        Call::ReceiveEvent(event) => reply is Unit && M::event_received(before, event, after),
    }
}

/// Constructs a plugin instance and stores it in the slot.
pub fn initialize<M: Mapp>(guard: &mut Guard<M>) -> (r: Result<(), GuardError>)
    ensures
        final(guard).phase() == step(old(guard).phase(), Op::Initialize).0,
        agrees(r, step(old(guard).phase(), Op::Initialize).1),
{
    let instance = M::new();
    guard.initialize(instance)
}

/// Runs one call on the stored instance: fails as uninitialized before the
/// first `initialize` and as poisoned after a call that did not complete;
/// otherwise takes the instance, calls the method and hands it back.
pub fn dispatch<M: MappInterface>(guard: &mut Guard<M>, call: Call) -> (r: Result<Reply, GuardError>)
    ensures
        agrees(r, step(old(guard).phase(), Op::Begin).1),
        r is Ok ==> final(guard).phase() == Phase::Ready,
        r is Err ==> final(guard).phase() == step(old(guard).phase(), Op::Begin).0,
        r matches Ok(reply) ==> call_ran(old(guard).instance(), call, reply, final(guard).instance()),
{
    let mut instance = match guard.acquire() {
        Ok(m) => m,
        Err(e) => return Err(e),
    };
    let ghost before = instance;
    let ghost c = call;
    let reply = match call {
        Call::Update(elapsed) => {
            instance.update(elapsed);
            Reply::Unit
        },
        Call::SendCommand => Reply::Command(instance.send_command()),
        Call::ReceiveCommandResponse(response) => {
            instance.receive_command_response(response);
            Reply::Unit
        },
        Call::FlushIo => Reply::IO(instance.flush_io()),
        Call::ReceiveEvent(event) => {
            instance.receive_event(event);
            Reply::Unit
        },
    };
    guard.release(instance);
    assert(call_ran(before, c, reply, instance));
    Ok(reply)
}

} // verus!
