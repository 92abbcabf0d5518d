use liquidity::codec::{decode_create, decode_update};
use liquidity::projection::EventType;
use liquidity::repository::ElectionRepository;
use liquidity::schema::{ElectionInput, Importance};
use liquidity::store::MockConnection;

fn conn() -> MockConnection {
    MockConnection::new()
}

fn repository() -> ElectionRepository {
    ElectionRepository::new(10, 600)
}

fn test_election_input() -> ElectionInput {
    ElectionInput {
        name: Some("test_name".to_string()),
        description: Some("test_description".to_string()),
        choices: Some(vec!["test1".to_string(), "test2".to_string()]),
        ..ElectionInput::default()
    }
}

fn test_update_input() -> ElectionInput {
    ElectionInput { description: Some("test_description_2".to_string()), ..ElectionInput::default() }
}

#[test]
fn create_works() {
    let mut conn = conn();
    let repository = repository();

    let election = repository
        .create_election(test_election_input(), "test_creator_id", &mut conn)
        .expect("Creating the election shouldn't fail");

    assert_eq!(election.name, "test_name".to_string());
    assert_eq!(election.description, "test_description".to_string());
    assert_eq!(election.choices, vec!["test1".to_string(), "test2".to_string()]);
    assert_eq!(election.importance, Importance::Regular);

    let stream_id = format!("election-{}", uuid::Uuid::from_u128(election.id));
    let sent = conn.read_all(&stream_id).expect("Stream should've been created");
    let event_type = sent[0].kind;
    let payload = decode_create(&sent[0].payload).expect("The event payload should have the right type");

    assert_eq!(event_type.as_str(), EventType::Create.as_str());
    assert_eq!(payload.id, election.id);
    assert_eq!(payload.description, "test_description");
    assert_eq!(payload.choices, vec!["test1".to_string(), "test2".to_string()])
}

#[test]
fn update_works() {
    let mut conn = conn();
    let mut repository = repository();

    let election = repository
        .create_election(test_election_input(), "test_creator_id", &mut conn)
        .expect("Creating the election shouldn't fail");

    let updated = repository
        .update_election(election.id, test_update_input(), &mut conn)
        .expect("Updating the election shouldn't fail");

    assert_eq!(election.name, updated.name);
    assert_eq!(election.importance, updated.importance);
    assert_eq!(updated.description, "test_description_2".to_string());
    assert_ne!(election.description, updated.description);

    let stream_id = format!("election-{}", uuid::Uuid::from_u128(election.id));
    let events = conn.read_all(&stream_id).expect("Stream should've been created");

    let create_event = &events[0];
    let create_payload = decode_create(&create_event.payload).expect("Create event should be of the right type");
    let update_event = &events[1];
    let update_payload = decode_update(&update_event.payload).expect("Update event should be of the right type");

    assert_eq!(create_event.kind.as_str(), EventType::Create.as_str());
    assert_eq!(create_payload.name, "test_name".to_string());
    assert_eq!(update_payload.name, None);
    assert_eq!(update_payload.description, Some("test_description_2".to_string()));
}

#[test]
fn find_works() {
    let mut conn = conn();
    let mut repository = repository();

    let election = repository
        .create_election(test_election_input(), "test_creator_id", &mut conn)
        .expect("Creating the election shouldn't fail");

    let read = repository
        .find_election(election.id, &conn)
        .expect("Finding the election shouldn't fail")
        .expect("The returned election shouldn't be none");

    assert_eq!(read.name, "test_name".to_string());
    assert_eq!(read.description, "test_description".to_string());

    let cache_entry = repository.cache_entry(election.id).expect("Election should exist in the cache");

    assert_eq!(cache_entry.name, election.name);
    assert_eq!(cache_entry.description, election.description);

    let updated = repository
        .update_election(election.id, test_update_input(), &mut conn)
        .expect("Updating the election shouldn't fail");

    let read = repository
        .find_election(election.id, &conn)
        .expect("Finding the election shouldn't fail")
        .expect("The returned election shouldn't be none");

    assert_eq!(read.name, election.name);
    assert_eq!(read.description, updated.description);

    let cache_entry = repository.cache_entry(election.id).expect("Election should exist in the cache");

    assert_eq!(cache_entry.description, updated.description);
    assert_eq!(cache_entry.name, election.name);
}
