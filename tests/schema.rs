use mlib::{
    Base64ByteSlice, Command, CommandKind, CommandLedger, CommandName, CommandResponse, CommandResponseKind,
    Entity, Model,
};

#[test]
fn base64_round_trip_bytes() {
    let s = Base64ByteSlice::from_bytes(&[0, 1, 255, 128]);
    assert_eq!(s.into_bytes(), vec![0u8, 1, 255, 128]);
}

#[test]
fn base64_text_is_standard_padded() {
    let s = Base64ByteSlice::from_bytes(&[0, 1, 255, 128]);
    assert_eq!(s.as_str(), "AAH/gA==");
    assert_eq!(Base64ByteSlice::from_bytes(&[]).as_str(), "");
}

#[test]
fn base64_from_wire_text() {
    let s = Base64ByteSlice::from_encoded("aGVsbG8=").unwrap();
    assert_eq!(s.into_bytes(), b"hello".to_vec());
    assert!(Base64ByteSlice::from_encoded("not base64!").is_none());
}

#[test]
fn base64_clone_keeps_text() {
    let s = Base64ByteSlice::from_bytes(b"xyz");
    assert_eq!(s.clone().as_str(), s.as_str());
}

fn every_pair() -> Vec<(CommandKind, CommandResponseKind)> {
    vec![
        (
            CommandKind::ModelCreate { data: Base64ByteSlice::from_bytes(&[1]) },
            CommandResponseKind::ModelCreate { model: Model(1) },
        ),
        (CommandKind::EntityRootGet, CommandResponseKind::EntityRootGet { root_entity: Entity(0) }),
        (CommandKind::EntityCreate, CommandResponseKind::EntityCreate { entity: Entity(3) }),
        (
            CommandKind::EntityParentSet { entity: Entity(1), parent_entity: None },
            CommandResponseKind::EntityParentSet { previous_parent_entity: Some(Entity(2)) },
        ),
        (
            CommandKind::EntityModelSet { entity: Entity(1), model: Some(Model(4)) },
            CommandResponseKind::EntityModelSet { previous_model: None },
        ),
        (
            CommandKind::EntityTransformSet { entity: Entity(1), transform: None },
            CommandResponseKind::EntityTransformSet { previous_transform: None },
        ),
        (
            CommandKind::GetViewOrientation {},
            CommandResponseKind::GetViewOrientation { views_per_medium: vec![None] },
        ),
        (
            CommandKind::RayTrace { origin: mlib::Vec3([0; 3]), direction: mlib::Vec3([0, 0, 0x3f80_0000]) },
            CommandResponseKind::RayTrace { closest_intersection: None },
        ),
        (CommandKind::Exit, CommandResponseKind::Exit),
    ]
}

#[test]
fn every_request_variant_has_same_named_response() {
    let pairs = every_pair();
    let mut names: Vec<CommandName> = Vec::new();
    for (q, r) in &pairs {
        assert_eq!(q.name(), r.name());
        assert!(!names.contains(&q.name()));
        names.push(q.name());
    }
    assert_eq!(names.len(), 9);
}

#[test]
fn response_to_sent_command_is_accepted() {
    let mut ledger = CommandLedger::new();
    let sent = Command { id: 7, kind: CommandKind::EntityCreate };
    assert!(ledger.register(&sent));
    let unmatched = CommandResponse { command_id: 8, kind: CommandResponseKind::EntityCreate { entity: Entity(3) } };
    assert!(!ledger.accept(&unmatched));
    let answer = CommandResponse { command_id: 7, kind: CommandResponseKind::EntityCreate { entity: Entity(3) } };
    assert!(ledger.accept(&answer));
    assert!(!ledger.accept(&answer));
}

#[test]
fn response_of_other_kind_is_unmatched() {
    let mut ledger = CommandLedger::new();
    assert!(ledger.register(&Command { id: 1, kind: CommandKind::EntityRootGet }));
    assert!(!ledger.register(&Command { id: 1, kind: CommandKind::Exit }));
    assert!(!ledger.accept(&CommandResponse { command_id: 1, kind: CommandResponseKind::Exit }));
    assert!(ledger.accept(&CommandResponse {
        command_id: 1,
        kind: CommandResponseKind::EntityRootGet { root_entity: Entity(0) },
    }));
}

#[test]
fn base64_unpadded_or_tampered_text_is_refused() {
    assert!(Base64ByteSlice::from_encoded("AAH/gA").is_none());
    assert!(Base64ByteSlice::from_encoded("@@@@").is_none());
    assert!(Base64ByteSlice::from_encoded("AAH/gB==").is_none());
    let s = Base64ByteSlice::from_encoded("AAH/gA==").unwrap();
    assert_eq!(s.into_bytes(), vec![0u8, 1, 255, 128]);
}

#[test]
fn base64_wire_text_round_trip() {
    let bytes: Vec<u8> = (0u8..=255).collect();
    let s = Base64ByteSlice::from_bytes(&bytes);
    assert_eq!(s.as_str().len(), 4 * ((bytes.len() + 2) / 3));
    let back = Base64ByteSlice::from_encoded(s.as_str()).unwrap();
    assert_eq!(back.into_bytes(), bytes);
}

#[test]
fn base64_default_holds_no_bytes() {
    let s = Base64ByteSlice::default();
    assert_eq!(s.as_str(), "");
    assert!(s.into_bytes().is_empty());
}
