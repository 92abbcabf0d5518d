use liquidity::context::{all_perms, create_test_user, User};
use liquidity::permissions::{check, PermissionError};
use liquidity::schema::{Importance, PermissionSet};

#[test]
fn check_permissions() {
    let user = Some(User { id: "".to_string(), permissions: vec!["view:election".to_string()] });

    assert_eq!(Ok(()), check("view:election", &user));
    assert_eq!(Err(PermissionError::NotAllowed), check("create:election", &user));
    assert_eq!(Err(PermissionError::NotLoggedIn), check("create:election", &None));
}

#[test]
fn permission_messages() {
    assert_eq!(PermissionError::NotLoggedIn.message(), "Unauthorized: You must be logged in to do that");
    assert_eq!(PermissionError::NotAllowed.message(), "Unauthorized: You don't have the permission to do that");
}

#[test]
fn test_user_holds_every_permission() {
    let user = create_test_user();
    assert_eq!(user.id, "test_user_id");
    assert_eq!(user.permissions, all_perms());
    assert_eq!(all_perms(), vec!["create:election", "update:election", "view:election"]);
    let user = Some(user);
    assert_eq!(check("update:election", &user), Ok(()));
}

#[test]
fn importance_names() {
    assert_eq!(Importance::Important.name(), "Important");
    assert_eq!(Importance::Regular.name(), "Regular");
    assert_eq!(Importance::Minor.name(), "Minor");
    assert_eq!(Importance::parse("Minor"), Some(Importance::Minor));
    assert_eq!(Importance::parse("Important"), Some(Importance::Important));
    assert_eq!(Importance::parse("Regular"), Some(Importance::Regular));
    assert_eq!(Importance::parse("regular"), None);
}

#[test]
fn default_permission_set() {
    let p = PermissionSet::default();
    assert_eq!(p.view_roles, Some(vec!["@all".to_string()]));
    assert_eq!(p.vote_roles, Some(vec!["@all".to_string()]));
    assert_eq!(p.edit_roles, Some(vec![]));
    assert_eq!(p.admin_roles, Some(vec![]));
}
