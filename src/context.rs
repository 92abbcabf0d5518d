use vstd::prelude::*;

verus! {

/// An authenticated caller and the permission keys granted to them.
#[derive(Debug, Clone)]
pub struct User {
    pub id: String,
    pub permissions: Vec<String>,
}

impl User {
    /// The permission keys of the user, as character sequences.
    pub open spec fn permission_keys(&self) -> Seq<Seq<char>> {
        self.permissions@.map_values(|p: String| p@)
    }

    /// Whether `key` is one of the user's permission keys.
    pub open spec fn has_permission(&self, key: Seq<char>) -> bool {
        self.permission_keys().contains(key)
    }

    /// Looks `key` up among the user's permissions.
    pub fn holds(&self, key: &str) -> (r: bool)
        ensures
            r == self.has_permission(key@),
    {
        let wanted = key.to_owned();
        let mut i: usize = 0;
        while i < self.permissions.len()
            invariant
                0 <= i <= self.permissions@.len(),
                wanted@ == key@,
                forall|j: int| 0 <= j < i ==> self.permissions@[j]@ != key@,
            decreases self.permissions@.len() - i,
        {
            if self.permissions[i] == wanted {
                assert(self.permission_keys()[i as int] == key@);
                return true;
            }
            i += 1;
        }
        assert forall|j: int| 0 <= j < self.permission_keys().len()
            implies self.permission_keys()[j] != key@ by {
            assert(self.permissions@[j]@ != key@);
        }
        false
    }
}

/// The permission keys of a caller allowed every election operation.
pub fn all_perms() -> (r: Vec<String>)
    ensures
        r@.map_values(|p: String| p@) == seq!["create:election"@, "update:election"@, "view:election"@],
{
    let r = vec!["create:election".to_owned(), "update:election".to_owned(), "view:election".to_owned()];
    assert(r@.map_values(|p: String| p@) =~= seq!["create:election"@, "update:election"@, "view:election"@]);
    r
}

/// A user for tests, holding every election permission.
pub fn create_test_user() -> (r: User)
    ensures
        r.id@ == "test_user_id"@,
        r.permission_keys() == seq!["create:election"@, "update:election"@, "view:election"@],
{
    User { id: "test_user_id".to_owned(), permissions: all_perms() }
}

} // verus!
