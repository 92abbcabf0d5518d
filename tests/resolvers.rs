use liquidity::context::{create_test_user, User};
use liquidity::permissions::PermissionError;
use liquidity::resolvers::{ApiError, ElectionResolvers};
use liquidity::schema::ElectionInput;
use liquidity::store::MockConnection;

fn viewer() -> Option<User> {
    Some(User { id: "v".to_string(), permissions: vec!["view:election".to_string()] })
}

#[test]
fn resolvers_guard_and_delegate() {
    let mut conn = MockConnection::new();
    let mut resolvers = ElectionResolvers::new(10, 60);
    let admin = Some(create_test_user());

    let input = ElectionInput { name: Some("x".to_string()), ..ElectionInput::default() };
    assert!(matches!(
        resolvers.create_election(input, &None, &mut conn),
        Err(ApiError::Unauthorized(PermissionError::NotLoggedIn))
    ));
    let input = ElectionInput { name: Some("x".to_string()), ..ElectionInput::default() };
    assert!(matches!(
        resolvers.create_election(input, &viewer(), &mut conn),
        Err(ApiError::Unauthorized(PermissionError::NotAllowed))
    ));
    assert!(matches!(
        resolvers.create_election(ElectionInput::default(), &admin, &mut conn),
        Err(ApiError::NameRequired)
    ));

    let input = ElectionInput { name: Some("x".to_string()), ..ElectionInput::default() };
    let created = resolvers.create_election(input, &admin, &mut conn).unwrap();
    let seen = resolvers.election(created.id, &viewer(), &conn).unwrap().unwrap();
    assert_eq!(seen.name, "x");

    let edit = ElectionInput { name: Some("y".to_string()), ..ElectionInput::default() };
    assert!(matches!(
        resolvers.edit_election(created.id, edit, &viewer(), &mut conn),
        Err(ApiError::Unauthorized(PermissionError::NotAllowed))
    ));
    let edit = ElectionInput { name: Some("y".to_string()), ..ElectionInput::default() };
    assert_eq!(resolvers.edit_election(created.id, edit, &admin, &mut conn).unwrap().name, "y");
    assert_eq!(resolvers.election(created.id, &admin, &conn).unwrap().unwrap().name, "y");

    let edit = ElectionInput { name: Some("z".to_string()), ..ElectionInput::default() };
    assert!(matches!(
        resolvers.edit_election(77, edit, &admin, &mut conn),
        Err(ApiError::Database(liquidity::errors::DatabaseError::NotFound))
    ));
    assert!(matches!(resolvers.election(77, &None, &conn), Err(ApiError::Unauthorized(PermissionError::NotLoggedIn))));
}
