use vstd::prelude::*;
use crate::context::User;
use crate::errors::DatabaseError;
use crate::models::{election_of, update_of};
use crate::permissions::{check, check_outcome, PermissionError};
use crate::projection::{create_event, projected};
use crate::repository::{
    coherent, looked_up, new_payload, outcome, stream_name, update_outcome, ElectionRepository, MAX_TTL_SECONDS,
};
use crate::schema::{opt_election, Election, ElectionInput, ElectionView, Timestamp};
use crate::store::{appended, MockConnection};

verus! {

/// Why an operation requested by a caller failed.
#[derive(Debug, Clone)]
pub enum ApiError {
    /// The caller is not logged in or lacks the permission.
    Unauthorized(PermissionError),
    /// A new election must have a name.
    NameRequired,
    /// The storage operation failed.
    Database(DatabaseError),
}

/// The outcome of a guarded operation: the permission error, or what the
/// operation gave.
pub open spec fn guarded<T>(key: Seq<char>, user: Option<User>, r: Result<T, DatabaseError>) -> Result<T, ApiError> {
    match check_outcome(key, user) {
        Err(p) => Err(ApiError::Unauthorized(p)),
        Ok(()) => match r {
            Ok(v) => Ok(v),
            Err(e) => Err(ApiError::Database(e)),
        },
    }
}

/// The view of a lookup's result as callers receive it.
pub open spec fn lookup_answer(r: Result<Option<Election>, ApiError>) -> Result<Option<ElectionView>, ApiError> {
    match r {
        Ok(x) => Ok(opt_election(x)),
        Err(e) => Err(e),
    }
}

/// The view of an operation's result as callers receive it.
pub open spec fn answered(r: Result<Election, ApiError>) -> Result<ElectionView, ApiError> {
    match r {
        Ok(e) => Ok(e@),
        Err(x) => Err(x),
    }
}

/// The election operations offered to callers, each guarded by a permission.
pub struct ElectionResolvers {
    repository: ElectionRepository,
}

impl ElectionResolvers {
    /// The repository behind the operations.
    pub closed spec fn repo(&self) -> ElectionRepository {
        self.repository
    }

    pub fn new(cache_capacity: usize, cache_ttl: u64) -> (r: ElectionResolvers)
        requires
            cache_ttl <= MAX_TTL_SECONDS,
        ensures
            r.repo().cached().dom() == Set::<u128>::empty(),
            r.repo().capacity() == cache_capacity,
            r.repo().ttl() == cache_ttl,
    {
        ElectionResolvers { repository: ElectionRepository::new(cache_capacity, cache_ttl) }
    }

    /// Creates an election for a caller holding `create:election`; the input
    /// must carry a name.
    pub fn create_election(&self, input: ElectionInput, user: &Option<User>, conn: &mut MockConnection) -> (r: Result<Election, ApiError>)
        requires
            old(conn).wf(),
        ensures
            final(conn).wf(),
            check_outcome("create:election"@, *user) matches Err(p) ==> r == Err::<Election, ApiError>(ApiError::Unauthorized(p))
                && *final(conn) == *old(conn),
            (check_outcome("create:election"@, *user) is Ok && input.name is None) ==> r == Err::<Election, ApiError>(ApiError::NameRequired)
                && *final(conn) == *old(conn),
            (check_outcome("create:election"@, *user) is Ok && input.name is Some) ==> (r matches Ok(e)
                && (exists|t: Timestamp| e@ == election_of(#[trigger] new_payload(input, e.id, user.unwrap().id@, t, t))
                && final(conn).stream(stream_name(e.id)) == Some(appended(
                    old(conn).stream(stream_name(e.id)),
                    create_event(new_payload(input, e.id, user.unwrap().id@, t, t)),
                ))) && forall|n: Seq<char>| n != stream_name(e.id) ==> #[trigger] final(conn).stream(n) == old(conn).stream(n)),
    {
        match check("create:election", user) {
            Ok(()) => {},
            Err(p) => return Err(ApiError::Unauthorized(p)),
        }
        if input.name.is_none() {
            return Err(ApiError::NameRequired);
        }
        let creator = match user {
            Some(u) => &u.id,
            None => return Err(ApiError::Unauthorized(PermissionError::NotLoggedIn)),
        };
        match self.repository.create_election(input, creator.as_str(), conn) {
            Ok(e) => Ok(e),
            Err(x) => Err(ApiError::Database(x)),
        }
    }

    /// Edits an election for a caller holding `update:election`.
    pub fn edit_election(&mut self, id: u128, input: ElectionInput, user: &Option<User>, conn: &mut MockConnection) -> (r: Result<Election, ApiError>)
        requires
            old(conn).wf(),
            old(self).repo().ttl() <= MAX_TTL_SECONDS,
        ensures
            final(conn).wf(),
            final(self).repo().ttl() == old(self).repo().ttl(),
            final(self).repo().capacity() == old(self).repo().capacity(),
            check_outcome("update:election"@, *user) matches Err(p) ==> r == Err::<Election, ApiError>(ApiError::Unauthorized(p))
                && *final(conn) == *old(conn) && final(self).repo().cached() == old(self).repo().cached(),
            check_outcome("update:election"@, *user) is Ok ==> exists|cur: Result<Option<ElectionView>, DatabaseError>,
                mid: Map<u128, ElectionView>, rv: Result<ElectionView, DatabaseError>|
                looked_up(old(self).repo().cached(), mid, old(self).repo().capacity(), old(conn).stream(stream_name(id)), id, cur)
                && #[trigger] update_outcome(
                    cur,
                    mid,
                    id,
                    update_of(input),
                    input.is_blank(),
                    rv,
                    old(conn).stream(stream_name(id)),
                    final(conn).stream(stream_name(id)),
                    final(self).repo().cached(),
                ) && answered(r) == guarded("update:election"@, *user, rv),
            forall|n: Seq<char>| n != stream_name(id) ==> #[trigger] final(conn).stream(n) == old(conn).stream(n),
            coherent(old(self).repo().cached(), *old(conn)) ==> coherent(final(self).repo().cached(), *final(conn)),
    {
        match check("update:election", user) {
            Ok(()) => {},
            Err(p) => return Err(ApiError::Unauthorized(p)),
        }
        let res = self.repository.update_election(id, input, conn);
        let ghost rv = outcome(res);
        let r = match res {
            Ok(e) => Ok(e),
            Err(x) => Err(ApiError::Database(x)),
        };
        assert(answered(r) == guarded("update:election"@, *user, rv));
        r
    }

    /// Finds an election for a caller holding `view:election`.
    pub fn election(&mut self, id: u128, user: &Option<User>, conn: &MockConnection) -> (r: Result<Option<Election>, ApiError>)
        requires
            conn.wf(),
            old(self).repo().ttl() <= MAX_TTL_SECONDS,
        ensures
            final(self).repo().ttl() == old(self).repo().ttl(),
            final(self).repo().capacity() == old(self).repo().capacity(),
            check_outcome("view:election"@, *user) matches Err(p) ==> r == Err::<Option<Election>, ApiError>(ApiError::Unauthorized(p))
                && final(self).repo().cached() == old(self).repo().cached(),
            check_outcome("view:election"@, *user) is Ok ==> exists|rv: Result<Option<ElectionView>, DatabaseError>|
                looked_up(old(self).repo().cached(), final(self).repo().cached(), old(self).repo().capacity(), conn.stream(stream_name(id)), id, rv)
                && #[trigger] lookup_answer(r) == guarded("view:election"@, *user, rv),
            coherent(old(self).repo().cached(), *conn) ==> coherent(final(self).repo().cached(), *conn),
    {
        match check("view:election", user) {
            Ok(()) => {},
            Err(p) => return Err(ApiError::Unauthorized(p)),
        }
        let res = self.repository.find_election(id, conn);
        let ghost rv = projected(res);
        let r = match res {
            Ok(x) => Ok(x),
            Err(e) => Err(ApiError::Database(e)),
        };
        assert(lookup_answer(r) == guarded("view:election"@, *user, rv));
        r
    }
}

} // verus!
