use vstd::prelude::*;
use crate::context::User;

verus! {

/// Why a caller may not use an operation.
#[derive(Debug, Clone, Copy, PartialEq, Eq, Structural)]
pub enum PermissionError {
    NotLoggedIn,
    NotAllowed,
}

/// The outcome of checking `key` against `user`.
pub open spec fn check_outcome(key: Seq<char>, user: Option<User>) -> Result<(), PermissionError> {
    match user {
        None => Err(PermissionError::NotLoggedIn),
        Some(u) => if u.has_permission(key) {
            Ok(())
        } else {
            Err(PermissionError::NotAllowed)
        },
    }
}

/// The outcome of an operation guarded by an optional permission key: without
/// a key only a logged-in caller is needed.
pub open spec fn authorized_outcome(key: Option<Seq<char>>, user: Option<User>) -> Result<(), PermissionError> {
    match key {
        Some(k) => check_outcome(k, user),
        None => if user is Some {
            Ok(())
        } else {
            Err(PermissionError::NotLoggedIn)
        },
    }
}

impl PermissionError {
    /// The human-readable description of the error.
    pub fn message(&self) -> (r: String)
        ensures
            *self == PermissionError::NotLoggedIn ==> r@ == "Unauthorized: You must be logged in to do that"@,
            *self == PermissionError::NotAllowed ==> r@ == "Unauthorized: You don't have the permission to do that"@,
    {
        match self {
            PermissionError::NotLoggedIn => "Unauthorized: You must be logged in to do that".to_owned(),
            PermissionError::NotAllowed => "Unauthorized: You don't have the permission to do that".to_owned(),
        }
    }
}

/// Checks that `user` is logged in and holds the permission `key`.
pub fn check(key: &str, user: &Option<User>) -> (r: Result<(), PermissionError>)
    ensures
        r == check_outcome(key@, *user),
{
    match user {
        None => Err(PermissionError::NotLoggedIn),
        Some(u) => if u.holds(key) {
            Ok(())
        } else {
            Err(PermissionError::NotAllowed)
        },
    }
}

/// Guards an operation: with a key, `user` must hold it; without one, `user`
/// must only be logged in.
pub fn authorized(key: Option<&str>, user: &Option<User>) -> (r: Result<(), PermissionError>)
    ensures
        r == authorized_outcome(
            match key {
                Some(k) => Some(k@),
                None => None,
            },
            *user,
        ),
{
    match key {
        Some(k) => check(k, user),
        None => match user {
            Some(_) => Ok(()),
            None => Err(PermissionError::NotLoggedIn),
        },
    }
}

} // verus!
