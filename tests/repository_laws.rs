use liquidity::errors::DatabaseError;
use liquidity::repository::{creation_event, current_from_read, election_stream, plan_update, ElectionRepository, UpdatePlan};
use liquidity::schema::{ElectionInput, Importance, Timestamp};
use liquidity::store::MockConnection;
use std::time::Duration;

fn named(name: &str) -> ElectionInput {
    ElectionInput { name: Some(name.to_string()), ..ElectionInput::default() }
}

#[test]
fn stream_name_is_kind_dash_hyphenated_id() {
    assert_eq!(election_stream(0), "election-00000000-0000-0000-0000-000000000000");
    assert_eq!(
        election_stream(0x0123_4567_89ab_cdef_0123_4567_89ab_cdef),
        "election-01234567-89ab-cdef-0123-456789abcdef"
    );
}

#[test]
fn find_after_create_returns_created() {
    let mut conn = MockConnection::new();
    let mut repository = ElectionRepository::new(10, 600);
    let input = ElectionInput {
        start_date: Some(Timestamp { seconds: 100, nanos: 0 }),
        end_date: Some(Timestamp { seconds: 200, nanos: 7 }),
        importance: Some(Importance::Important),
        ..named("e")
    };
    let created = repository.create_election(input, "me", &mut conn).unwrap();
    let found = repository.find_election(created.id, &conn).unwrap().unwrap();
    assert_eq!(found.id, created.id);
    assert_eq!(found.name, created.name);
    assert_eq!(found.description, created.description);
    assert_eq!(found.choices, created.choices);
    assert_eq!(found.start_date, Timestamp { seconds: 100, nanos: 0 });
    assert_eq!(found.end_date, Timestamp { seconds: 200, nanos: 7 });
    assert_eq!(found.importance, Importance::Important);
}

#[test]
fn create_applies_defaults() {
    let mut conn = MockConnection::new();
    let repository = ElectionRepository::new(10, 600);
    let e = repository.create_election(named("only a name"), "me", &mut conn).unwrap();
    assert_eq!(e.name, "only a name");
    assert_eq!(e.description, "");
    assert!(e.choices.is_empty());
    assert_eq!(e.importance, Importance::Regular);
}

#[test]
fn blank_update_is_a_no_op() {
    let mut conn = MockConnection::new();
    let mut repository = ElectionRepository::new(10, 600);
    let created = repository.create_election(named("e"), "me", &mut conn).unwrap();
    let stream = election_stream(created.id);
    let same = repository.update_election(created.id, ElectionInput::default(), &mut conn).unwrap();
    assert_eq!(same.name, created.name);
    assert_eq!(same.description, created.description);
    assert_eq!(same.choices, created.choices);
    assert_eq!(same.start_date, created.start_date);
    assert_eq!(same.end_date, created.end_date);
    assert_eq!(same.importance, created.importance);
    assert_eq!(conn.read_all(&stream).unwrap().len(), 1);
}

#[test]
fn find_unknown_id_is_none() {
    let conn = MockConnection::new();
    let mut repository = ElectionRepository::new(10, 600);
    assert!(matches!(repository.find_election(12345, &conn), Ok(None)));
}

#[test]
fn update_unknown_id_is_not_found() {
    let mut conn = MockConnection::new();
    let mut repository = ElectionRepository::new(10, 600);
    let input = ElectionInput { description: Some("x".to_string()), ..ElectionInput::default() };
    assert!(matches!(repository.update_election(999, input, &mut conn), Err(DatabaseError::NotFound)));
    assert!(matches!(conn.read_all(&election_stream(999)), Err(DatabaseError::NotFound)));
}

#[test]
fn update_drops_cache_entry_before_ttl() {
    let mut conn = MockConnection::new();
    let mut repository = ElectionRepository::new(10, 3600);
    let created = repository.create_election(named("before"), "me", &mut conn).unwrap();
    repository.find_election(created.id, &conn).unwrap();
    assert_eq!(repository.cache_entry(created.id).unwrap().name, "before");
    repository.update_election(created.id, named("after"), &mut conn).unwrap();
    assert!(repository.cache_entry(created.id).is_none());
    let found = repository.find_election(created.id, &conn).unwrap().unwrap();
    assert_eq!(found.name, "after");
}

#[test]
fn scenario_create_then_edit_description() {
    let mut conn = MockConnection::new();
    let mut repository = ElectionRepository::new(10, 600);
    let input = ElectionInput {
        name: Some("test_name".to_string()),
        description: Some("test_description".to_string()),
        choices: Some(vec!["test1".to_string(), "test2".to_string()]),
        ..ElectionInput::default()
    };
    let created = repository.create_election(input, "creator", &mut conn).unwrap();
    assert_eq!(created.name, "test_name");
    assert_eq!(created.description, "test_description");
    assert_eq!(created.choices, vec!["test1".to_string(), "test2".to_string()]);
    assert_eq!(created.importance, Importance::Regular);
    let edit = ElectionInput { description: Some("test_description_2".to_string()), ..ElectionInput::default() };
    let updated = repository.update_election(created.id, edit, &mut conn).unwrap();
    assert_eq!(updated.name, "test_name");
    assert_eq!(updated.description, "test_description_2");
    assert_eq!(updated.choices, vec!["test1".to_string(), "test2".to_string()]);
}

#[test]
fn zero_capacity_cache_never_serves() {
    let mut conn = MockConnection::new();
    let mut repository = ElectionRepository::new(0, 600);
    let created = repository.create_election(named("e"), "me", &mut conn).unwrap();
    assert_eq!(repository.find_election(created.id, &conn).unwrap().unwrap().name, "e");
    assert!(repository.cache_entry(created.id).is_none());
}

#[test]
fn expired_cache_entry_is_not_served() {
    let mut conn = MockConnection::new();
    let mut repository = ElectionRepository::new(10, 0);
    let created = repository.create_election(named("e"), "me", &mut conn).unwrap();
    repository.find_election(created.id, &conn).unwrap();
    let start = std::time::Instant::now();
    while start.elapsed() < Duration::from_millis(2) {}
    assert!(repository.cache_entry(created.id).is_none());
}

#[test]
fn deleted_stream_reads_as_none() {
    let mut conn = MockConnection::new();
    let mut repository = ElectionRepository::new(0, 600);
    let created = repository.create_election(named("e"), "me", &mut conn).unwrap();
    let stream = election_stream(created.id);
    conn.delete(&stream, liquidity::codec::Record { fields: vec![] }).unwrap();
    assert!(matches!(repository.find_election(created.id, &conn), Ok(None)));
    let edit = ElectionInput { description: Some("x".to_string()), ..ElectionInput::default() };
    assert!(matches!(repository.update_election(created.id, edit, &mut conn), Err(DatabaseError::NotFound)));
}

#[test]
fn creation_event_uses_clock_readings_for_absent_dates() {
    let start = Timestamp { seconds: 11, nanos: 1 };
    let end = Timestamp { seconds: 22, nanos: 2 };
    let c = creation_event(named("n"), 5, "who", start, end);
    assert_eq!(c.id, 5);
    assert_eq!(c.name, "n");
    assert_eq!(c.description, "");
    assert!(c.choices.is_empty());
    assert_eq!(c.importance, Importance::Regular);
    assert_eq!(c.created_by_id, "who");
    assert_eq!(c.start_date, start);
    assert_eq!(c.end_date, end);
    let given = ElectionInput {
        start_date: Some(Timestamp { seconds: 1, nanos: 0 }),
        end_date: Some(Timestamp { seconds: 2, nanos: 0 }),
        ..named("n")
    };
    let c = creation_event(given, 5, "who", start, end);
    assert_eq!(c.start_date, Timestamp { seconds: 1, nanos: 0 });
    assert_eq!(c.end_date, Timestamp { seconds: 2, nanos: 0 });
}

#[test]
fn repeated_blank_edit_returns_the_same_election() {
    let mut conn = MockConnection::new();
    let mut repository = ElectionRepository::new(10, 600);
    let created = repository.create_election(named("e"), "me", &mut conn).unwrap();
    let first = repository.update_election(created.id, ElectionInput::default(), &mut conn).unwrap();
    let second = repository.update_election(created.id, ElectionInput::default(), &mut conn).unwrap();
    assert_eq!(first.name, second.name);
    assert_eq!(first.start_date, second.start_date);
    assert_eq!(conn.read_all(&election_stream(created.id)).unwrap().len(), 1);
}

#[test]
fn largest_time_to_live_is_accepted() {
    let mut conn = MockConnection::new();
    let mut repository = ElectionRepository::new(10, liquidity::repository::MAX_TTL_SECONDS);
    let created = repository.create_election(named("e"), "me", &mut conn).unwrap();
    assert_eq!(repository.find_election(created.id, &conn).unwrap().unwrap().name, "e");
    assert_eq!(repository.cache_entry(created.id).unwrap().name, "e");
}

#[test]
fn planned_edits() {
    let mut conn = MockConnection::new();
    let repository = ElectionRepository::new(10, 600);
    let created = repository.create_election(named("old"), "me", &mut conn).unwrap();
    let current = || conn.read::<liquidity::projection::ElectionProjector>(&election_stream(created.id));
    match plan_update(current(), named("new")) {
        UpdatePlan::Append(u, e) => {
            assert_eq!(u.name, Some("new".to_string()));
            assert_eq!(u.description, None);
            assert_eq!(e.name, "new");
        }
        other => panic!("unexpected {:?}", other),
    }
    assert!(matches!(plan_update(current(), ElectionInput::default()), UpdatePlan::Unchanged(ref e) if e.name == "old"));
    assert!(matches!(plan_update(Ok(None), named("x")), UpdatePlan::Stop(DatabaseError::NotFound)));
    assert!(matches!(plan_update(Err(DatabaseError::ConnectionFailed), named("x")), UpdatePlan::Stop(DatabaseError::ConnectionFailed)));
}

#[test]
fn current_state_from_a_store_read() {
    assert!(matches!(current_from_read(Err(DatabaseError::NotFound)), Ok(None)));
    assert!(matches!(current_from_read(Err(DatabaseError::ConnectionFailed)), Err(DatabaseError::ConnectionFailed)));
    assert!(matches!(current_from_read(Ok(vec![])), Ok(None)));
}
