use liquidity::codec::{encode_create, encode_update, Field, FieldValue, PayloadError, Record};
use liquidity::errors::DatabaseError;
use liquidity::models::{CreateElectionEvent, Merge, UpdateElectionEvent};
use liquidity::projection::{project_election, EventType, RawEvent};
use liquidity::schema::{Election, Importance, Timestamp};

fn create_event(id: u128, name: &str) -> CreateElectionEvent {
    CreateElectionEvent {
        id,
        name: name.to_string(),
        description: "desc".to_string(),
        start_date: Timestamp { seconds: 10, nanos: 0 },
        end_date: Timestamp { seconds: 20, nanos: 0 },
        importance: Importance::Regular,
        created_by_id: "creator".to_string(),
        choices: vec!["x".to_string()],
    }
}

fn rename(name: &str) -> UpdateElectionEvent {
    UpdateElectionEvent {
        name: Some(name.to_string()),
        description: None,
        start_date: None,
        end_date: None,
        importance: None,
        choices: None,
    }
}

fn raw(kind: EventType, payload: Record) -> RawEvent {
    RawEvent { kind, payload }
}

#[test]
fn empty_stream_projects_to_none() {
    assert!(matches!(project_election(&vec![]), Ok(None)));
}

#[test]
fn projection_agrees_with_merge() {
    let c = create_event(7, "first");
    let u = UpdateElectionEvent {
        description: Some("changed".to_string()),
        importance: Some(Importance::Important),
        ..rename("second")
    };
    let events = vec![raw(EventType::Create, encode_create(&c)), raw(EventType::Update, encode_update(&u))];
    let projected = project_election(&events).expect("projects").expect("exists");
    let merged = Election::from_create(create_event(7, "first")).merge_with(u);
    assert_eq!(projected.id, merged.id);
    assert_eq!(projected.name, merged.name);
    assert_eq!(projected.name, "second");
    assert_eq!(projected.description, merged.description);
    assert_eq!(projected.choices, merged.choices);
    assert_eq!(projected.start_date, merged.start_date);
    assert_eq!(projected.end_date, merged.end_date);
    assert_eq!(projected.importance, Importance::Important);
}

#[test]
fn update_before_create_is_dropped() {
    let events = vec![
        raw(EventType::Update, encode_update(&rename("ignored"))),
        raw(EventType::Create, encode_create(&create_event(1, "made"))),
    ];
    let e = project_election(&events).unwrap().unwrap();
    assert_eq!(e.name, "made");
    let only_update = vec![raw(EventType::Update, encode_update(&rename("ignored")))];
    assert!(matches!(project_election(&only_update), Ok(None)));
}

#[test]
fn second_create_resets_state() {
    let events = vec![
        raw(EventType::Create, encode_create(&create_event(1, "one"))),
        raw(EventType::Update, encode_update(&rename("renamed"))),
        raw(EventType::Create, encode_create(&create_event(2, "two"))),
    ];
    let e = project_election(&events).unwrap().unwrap();
    assert_eq!(e.id, 2);
    assert_eq!(e.name, "two");
}

#[test]
fn delete_ends_the_fold() {
    let bad = Record { fields: vec![Field { name: "id".to_string(), value: FieldValue::Level(Importance::Minor) }] };
    let events = vec![
        raw(EventType::Create, encode_create(&create_event(1, "one"))),
        raw(EventType::Delete, Record { fields: vec![] }),
        raw(EventType::Create, bad),
    ];
    assert!(matches!(project_election(&events), Ok(None)));
}

#[test]
fn undecodable_payload_fails_the_projection() {
    let events = vec![
        raw(EventType::Create, encode_create(&create_event(1, "one"))),
        raw(EventType::Update, Record { fields: vec![Field { name: "choices".to_string(), value: FieldValue::Id(3) }] }),
    ];
    assert!(matches!(project_election(&events), Err(DatabaseError::SerializationError(PayloadError::WrongType))));
    let broken = vec![raw(EventType::Create, Record { fields: vec![] })];
    assert!(matches!(project_election(&broken), Err(DatabaseError::SerializationError(PayloadError::MissingField))));
}

#[test]
fn event_kind_tags() {
    assert_eq!(EventType::Create.as_str(), "create");
    assert_eq!(EventType::Update.as_str(), "update");
    assert_eq!(EventType::Delete.as_str(), "delete");
    assert_eq!(EventType::from_name("update"), EventType::Update);
    assert_eq!(EventType::from_name("delete"), EventType::Delete);
    assert_eq!(EventType::from_name("create"), EventType::Create);
    assert_eq!(EventType::from_name("something-else"), EventType::Create);
}

#[test]
fn unreadable_update_before_create_fails_the_projection() {
    let bad = Record { fields: vec![Field { name: "description".to_string(), value: FieldValue::Id(1) }] };
    let events = vec![raw(EventType::Update, bad)];
    assert!(matches!(project_election(&events), Err(DatabaseError::SerializationError(PayloadError::WrongType))));
}

#[test]
fn unreadable_payload_after_delete_is_not_read() {
    let events = vec![
        raw(EventType::Create, encode_create(&create_event(1, "one"))),
        raw(EventType::Delete, Record { fields: vec![] }),
        raw(EventType::Update, liquidity::codec::unreadable_payload()),
    ];
    assert!(matches!(project_election(&events), Ok(None)));
}

#[test]
fn unreadable_payload_is_rejected_by_both_kinds() {
    let events = vec![raw(EventType::Create, liquidity::codec::unreadable_payload())];
    assert!(project_election(&events).is_err());
    let events = vec![raw(EventType::Update, liquidity::codec::unreadable_payload())];
    assert!(project_election(&events).is_err());
}
