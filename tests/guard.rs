use std::time::Duration;

use mlib::{
    dispatch, initialize, Call, Command, CommandKind, CommandResponse, CommandResponseKind, Entity, Event,
    Guard, GuardError, Mapp, MappInterface, Reply, IO,
};

#[derive(Default)]
struct Counter {
    ticks: u32,
    responses: Vec<usize>,
    out: Vec<u8>,
}

impl MappInterface for Counter {
    fn update(&mut self, _elapsed: Duration) {
        self.ticks += 1;
        self.out.push(b'.');
    }

    fn send_command(&mut self) -> Option<Command> {
        Some(Command { id: 7, kind: CommandKind::EntityCreate })
    }

    fn receive_command_response(&mut self, response: CommandResponse) {
        self.responses.push(response.command_id);
    }

    fn flush_io(&mut self) -> IO {
        IO { out: std::mem::take(&mut self.out), err: Vec::new() }
    }

    fn receive_event(&mut self, _event: Event) {}
}

impl Mapp for Counter {
    fn new() -> Self {
        Counter::default()
    }
}

#[test]
fn flush_before_initialize_is_uninitialized() {
    let mut g: Guard<Counter> = Guard::new();
    assert!(matches!(dispatch(&mut g, Call::FlushIo), Err(GuardError::Uninitialized)));
    assert!(matches!(dispatch(&mut g, Call::SendCommand), Err(GuardError::Uninitialized)));
}

#[test]
fn calls_reach_instance_after_initialize() {
    let mut g: Guard<Counter> = Guard::new();
    assert_eq!(initialize(&mut g), Ok(()));
    assert!(matches!(dispatch(&mut g, Call::Update(Duration::from_millis(16))), Ok(Reply::Unit)));
    assert!(matches!(dispatch(&mut g, Call::Update(Duration::from_millis(16))), Ok(Reply::Unit)));
    match dispatch(&mut g, Call::FlushIo) {
        Ok(Reply::IO(io)) => assert_eq!(io.out, b"..".to_vec()),
        _ => panic!("expected IO"),
    }
    match dispatch(&mut g, Call::FlushIo) {
        Ok(Reply::IO(io)) => assert!(io.out.is_empty()),
        _ => panic!("expected IO"),
    }
    match dispatch(&mut g, Call::SendCommand) {
        Ok(Reply::Command(Some(c))) => assert_eq!(c.id, 7),
        _ => panic!("expected a command"),
    }
    let response = CommandResponse { command_id: 7, kind: CommandResponseKind::EntityCreate { entity: Entity(3) } };
    assert!(matches!(dispatch(&mut g, Call::ReceiveCommandResponse(response)), Ok(Reply::Unit)));
}

#[test]
fn unfinished_call_poisons_for_good() {
    let mut g: Guard<Counter> = Guard::new();
    assert_eq!(initialize(&mut g), Ok(()));
    let taken = g.acquire();
    assert!(taken.is_ok());
    assert!(matches!(dispatch(&mut g, Call::FlushIo), Err(GuardError::Poisoned)));
    assert_eq!(initialize(&mut g), Err(GuardError::Poisoned));
    for _ in 0..3 {
        assert!(matches!(dispatch(&mut g, Call::SendCommand), Err(GuardError::Poisoned)));
    }
}

#[test]
fn reinitialize_replaces_instance() {
    let mut g: Guard<Counter> = Guard::new();
    assert_eq!(initialize(&mut g), Ok(()));
    assert!(dispatch(&mut g, Call::Update(Duration::from_secs(1))).is_ok());
    assert_eq!(initialize(&mut g), Ok(()));
    match dispatch(&mut g, Call::FlushIo) {
        Ok(Reply::IO(io)) => assert!(io.out.is_empty()),
        _ => panic!("expected IO"),
    }
}

#[test]
fn released_instance_is_free_again() {
    let mut g: Guard<Counter> = Guard::new();
    assert_eq!(g.initialize(Counter::default()), Ok(()));
    let mut m = g.acquire().ok().unwrap();
    m.ticks = 5;
    g.release(m);
    let m = g.acquire().ok().unwrap();
    assert_eq!(m.ticks, 5);
}

#[test]
fn native_api_version_default() {
    let mut c = Counter::default();
    assert_eq!(c.api_version(), "0.1.0");
    assert!(c.responses.is_empty());
}
