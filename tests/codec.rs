use liquidity::codec::{
    decode_create, decode_update, encode_create, encode_update, find_field, Field, FieldValue, PayloadError, Record,
};
use liquidity::models::{CreateElectionEvent, UpdateElectionEvent};
use liquidity::schema::{Importance, Timestamp};

fn sample_create() -> CreateElectionEvent {
    CreateElectionEvent {
        id: 42,
        name: "test_name".to_string(),
        description: String::new(),
        start_date: Timestamp { seconds: 1_600_000_000, nanos: 5 },
        end_date: Timestamp { seconds: 1_600_086_400, nanos: 0 },
        importance: Importance::Minor,
        created_by_id: "auth0|test".to_string(),
        choices: vec![],
    }
}

fn blank_update() -> UpdateElectionEvent {
    UpdateElectionEvent {
        name: None,
        description: None,
        start_date: None,
        end_date: None,
        importance: None,
        choices: None,
    }
}

#[test]
fn create_payload_round_trip() {
    let c = sample_create();
    let back = decode_create(&encode_create(&c)).expect("decodes");
    assert_eq!(back.id, 42);
    assert_eq!(back.name, "test_name");
    assert_eq!(back.description, "");
    assert_eq!(back.start_date, Timestamp { seconds: 1_600_000_000, nanos: 5 });
    assert_eq!(back.end_date, Timestamp { seconds: 1_600_086_400, nanos: 0 });
    assert_eq!(back.importance, Importance::Minor);
    assert_eq!(back.created_by_id, "auth0|test");
    assert!(back.choices.is_empty());
}

#[test]
fn create_record_holds_every_field() {
    let record = encode_create(&sample_create());
    assert_eq!(record.fields.len(), 8);
    assert_eq!(record.fields[0].name, "id");
    assert_eq!(record.fields[7].name, "choices");
}

#[test]
fn blank_update_round_trip_keeps_fields_absent() {
    let record = encode_update(&blank_update());
    assert!(record.fields.is_empty());
    let back = decode_update(&record).expect("decodes");
    assert_eq!(back.name, None);
    assert_eq!(back.description, None);
    assert_eq!(back.start_date, None);
    assert_eq!(back.end_date, None);
    assert_eq!(back.importance, None);
    assert_eq!(back.choices, None);
}

#[test]
fn present_but_empty_update_fields_stay_present() {
    let u = UpdateElectionEvent {
        description: Some(String::new()),
        choices: Some(vec![]),
        ..blank_update()
    };
    let record = encode_update(&u);
    assert_eq!(record.fields.len(), 2);
    let back = decode_update(&record).expect("decodes");
    assert_eq!(back.name, None);
    assert_eq!(back.description, Some(String::new()));
    assert_eq!(back.choices, Some(vec![]));
}

#[test]
fn full_update_round_trip() {
    let u = UpdateElectionEvent {
        name: Some("n".to_string()),
        description: Some("d".to_string()),
        start_date: Some(Timestamp { seconds: -3, nanos: 1 }),
        end_date: Some(Timestamp { seconds: 9, nanos: 2 }),
        importance: Some(Importance::Important),
        choices: Some(vec!["a".to_string(), "b".to_string()]),
    };
    let back = decode_update(&encode_update(&u)).expect("decodes");
    assert_eq!(back.name, Some("n".to_string()));
    assert_eq!(back.description, Some("d".to_string()));
    assert_eq!(back.start_date, Some(Timestamp { seconds: -3, nanos: 1 }));
    assert_eq!(back.end_date, Some(Timestamp { seconds: 9, nanos: 2 }));
    assert_eq!(back.importance, Some(Importance::Important));
    assert_eq!(back.choices, Some(vec!["a".to_string(), "b".to_string()]));
}

#[test]
fn missing_field_is_an_error() {
    let mut record = encode_create(&sample_create());
    record.fields.remove(1);
    assert!(matches!(decode_create(&record), Err(PayloadError::MissingField)));
}

#[test]
fn wrong_field_kind_is_an_error() {
    let record = Record {
        fields: vec![Field { name: "name".to_string(), value: FieldValue::Id(1) }],
    };
    assert!(matches!(decode_update(&record), Err(PayloadError::WrongType)));
    let mut create = encode_create(&sample_create());
    create.fields[0].value = FieldValue::Text("x".to_string());
    assert!(matches!(decode_create(&create), Err(PayloadError::WrongType)));
}

#[test]
fn first_field_of_a_name_wins() {
    let record = Record {
        fields: vec![
            Field { name: "name".to_string(), value: FieldValue::Text("first".to_string()) },
            Field { name: "name".to_string(), value: FieldValue::Text("second".to_string()) },
        ],
    };
    match find_field(&record, "name") {
        Some(FieldValue::Text(t)) => assert_eq!(t, "first"),
        _ => panic!("expected the first field"),
    }
    assert!(find_field(&record, "other").is_none());
}
