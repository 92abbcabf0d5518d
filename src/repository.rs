use vstd::prelude::*;
use crate::codec::{encode_create, encode_update};
use crate::errors::DatabaseError;
use crate::ids::{lemma_uuid_text_injective, uuid_text};
use crate::models::{
    election_of, merged, or_keep, update_of, CreateElectionEvent, CreateView, Merge, UpdateElectionEvent, UpdateView,
};
use crate::outside::{
    cache_capacity, cache_entries, cache_get, cache_insert, cache_new, cache_remove, new_uuid, now, uuid_string,
    ElectionCache,
};
use crate::projection::{
    create_event, fold, lemma_create_appended, lemma_fold_stays_stopped, lemma_update_appended, projected, update_event, ElectionProjector,
    EventType, EventView, RawEvent, events_view, project_election, project_spec,
};
use crate::codec::FieldData;
use crate::schema::{copy_texts, texts, Election, ElectionInput, ElectionView, Importance, Timestamp};
use crate::store::{appended, read_spec, MockConnection};

verus! {

/// The longest time to live a cache entry may have, in seconds (about
/// 31,700 years): an entry's expiry, the clock plus its time to live, must
/// stay representable.
pub const MAX_TTL_SECONDS: u64 = 1_000_000_000_000;

/// The name of an election's stream: the entity kind, a dash and the id.
pub open spec fn stream_name(id: u128) -> Seq<char> {
    "election-"@ + uuid_text(id)
}

/// The name of the stream that holds the events of election `id`.
pub fn election_stream(id: u128) -> (r: String)
    ensures
        r@ == stream_name(id),
{
    let text = uuid_string(id);
    "election-".to_owned().concat(text.as_str())
}

/// Different elections have different stream names.
pub proof fn lemma_stream_name_injective(a: u128, b: u128)
    requires
        stream_name(a) == stream_name(b),
    ensures
        a == b,
{
    reveal_strlit("election-");
    assert(stream_name(a).subrange(9, 45) =~= uuid_text(a));
    assert(stream_name(b).subrange(9, 45) =~= uuid_text(b));
    lemma_uuid_text_injective(a, b);
}

/// The creation payload for `input`: a new election `id` made by `creator`,
/// with the input's fields where present and else the defaults: an empty
/// description, no choices, regular importance, and the clock readings
/// `start_now` and `end_now` for the dates.
pub open spec fn new_payload(
    input: ElectionInput,
    id: u128,
    creator: Seq<char>,
    start_now: Timestamp,
    end_now: Timestamp,
) -> CreateView {
    CreateView {
        id,
        name: match input.name {
            Some(n) => n@,
            None => Seq::<char>::empty(),
        },
        description: match input.description {
            Some(d) => d@,
            None => Seq::<char>::empty(),
        },
        start_date: or_keep(input.start_date, start_now),
        end_date: or_keep(input.end_date, end_now),
        importance: or_keep(input.importance, Importance::Regular),
        created_by_id: creator,
        choices: match input.choices {
            Some(c) => texts(c@),
            None => Seq::<Seq<char>>::empty(),
        },
    }
}

/// Builds the creation payload of a new election from its input, its id, its
/// creator and the clock readings that stand for absent dates.
pub fn creation_event(
    input: ElectionInput,
    id: u128,
    creator_id: &str,
    start_now: Timestamp,
    end_now: Timestamp,
) -> (r: CreateElectionEvent)
    requires
        input.name is Some,
    ensures
        r@ == new_payload(input, id, creator_id@, start_now, end_now),
{
    let choices = match input.choices {
        Some(c) => c,
        None => Vec::new(),
    };
    assert(texts(choices@) == (match input.choices {
        Some(c) => texts(c@),
        None => Seq::<Seq<char>>::empty(),
    }));
    CreateElectionEvent {
        id,
        created_by_id: creator_id.to_owned(),
        name: match input.name {
            Some(n) => n,
            None => String::new(),
        },
        description: match input.description {
            Some(d) => d,
            None => String::new(),
        },
        start_date: match input.start_date {
            Some(d) => d,
            None => start_now,
        },
        end_date: match input.end_date {
            Some(d) => d,
            None => end_now,
        },
        importance: match input.importance {
            Some(i) => i,
            None => Importance::Regular,
        },
        choices,
    }
}

/// Whether `r` is a value that the cache held for `id`.
pub open spec fn served_from_cache(cached: Map<u128, ElectionView>, id: u128, r: Result<Option<ElectionView>, DatabaseError>) -> bool {
    r matches Ok(Some(e)) && cached.contains_key(id) && cached[id] == e
}

/// Whether a lookup of `id` may have produced `r`: a value the cache held, or
/// the projection of the election's stream.
pub open spec fn found(
    cached: Map<u128, ElectionView>,
    stream: Option<Seq<EventView>>,
    id: u128,
    r: Result<Option<ElectionView>, DatabaseError>,
) -> bool {
    served_from_cache(cached, id, r) || r == read_spec::<ElectionProjector>(stream)
}

/// The cache after a lookup read `r` from the store: a found election is
/// stored (unless the cache holds nothing), and no other entry is added or
/// changed.
pub open spec fn refreshed(
    before: Map<u128, ElectionView>,
    after: Map<u128, ElectionView>,
    capacity: nat,
    id: u128,
    r: Result<Option<ElectionView>, DatabaseError>,
) -> bool {
    match r {
        Ok(Some(e)) => {
            &&& (capacity > 0 ==> after.contains_key(id) && after[id] == e)
            &&& forall|k: u128| #[trigger] after.contains_key(k) ==> (
                (k == id && after[k] == e) || (k != id && before.contains_key(k) && after[k] == before[k]))
        },
        _ => after == before,
    }
}

/// What a lookup of `id` does: it gives a value the cache held and leaves the
/// cache as it was, or it gives the projection of the stream and stores a
/// found election in the cache.
pub open spec fn looked_up(
    before: Map<u128, ElectionView>,
    after: Map<u128, ElectionView>,
    capacity: nat,
    stream: Option<Seq<EventView>>,
    id: u128,
    r: Result<Option<ElectionView>, DatabaseError>,
) -> bool {
    (served_from_cache(before, id, r) && after == before) || (r == read_spec::<ElectionProjector>(stream)
        && refreshed(before, after, capacity, id, r))
}

/// Whether every cache entry is the current projection of its stream.
pub open spec fn coherent(cached: Map<u128, ElectionView>, conn: MockConnection) -> bool {
    forall|k: u128| #[trigger] cached.contains_key(k) ==> read_spec::<ElectionProjector>(conn.stream(stream_name(k)))
        == Ok::<Option<ElectionView>, DatabaseError>(Some(cached[k]))
}

/// The view of an operation's result.
pub open spec fn outcome(r: Result<Election, DatabaseError>) -> Result<ElectionView, DatabaseError> {
    match r {
        Ok(e) => Ok(e@),
        Err(x) => Err(x),
    }
}

/// What an update does, given the current state `cur` that the lookup gave
/// and the cache `mid` that the lookup left: an error or an absent election
/// stops it, a blank input returns the current election, and otherwise the
/// update event is appended, the merged election returned and the cache
/// entry of `id` dropped. Only an appended update changes the cache further.
pub open spec fn update_outcome(
    cur: Result<Option<ElectionView>, DatabaseError>,
    mid: Map<u128, ElectionView>,
    id: u128,
    upd: UpdateView,
    blank: bool,
    r: Result<ElectionView, DatabaseError>,
    before: Option<Seq<EventView>>,
    after: Option<Seq<EventView>>,
    cache_after: Map<u128, ElectionView>,
) -> bool {
    match cur {
        Err(x) => r == Err::<ElectionView, DatabaseError>(x) && after == before && cache_after == mid,
        Ok(None) => r == Err::<ElectionView, DatabaseError>(DatabaseError::NotFound) && after == before
            && cache_after == mid,
        Ok(Some(e)) => if blank {
            r == Ok::<ElectionView, DatabaseError>(e) && after == before && cache_after == mid
        } else {
            &&& r == Ok::<ElectionView, DatabaseError>(merged(e, upd))
            &&& after == Some(appended(before, update_event(upd)))
            &&& cache_after == mid.remove(id)
        },
    }
}

/// Finding an election right after creating it gives the created election,
/// when the cache holds nothing for its id and its stream was absent or not
/// stopped by a deletion or an unreadable payload.
pub proof fn lemma_find_after_create(
    cached: Map<u128, ElectionView>,
    before: Option<Seq<EventView>>,
    c: CreateView,
    r: Result<Option<ElectionView>, DatabaseError>,
)
    requires
        !cached.contains_key(c.id),
        before matches Some(evs) ==> fold::<ElectionProjector>(evs) is Running,
        found(cached, Some(appended(before, create_event(c))), c.id, r),
    ensures
        r == Ok::<Option<ElectionView>, DatabaseError>(Some(election_of(c))),
{
    match before {
        Some(evs) => lemma_create_appended(evs, c),
        None => {
            lemma_create_appended(Seq::<EventView>::empty(), c);
            assert(Seq::<EventView>::empty().push(create_event(c)) =~= seq![create_event(c)]);
        },
    }
}

/// Finding an election that neither the cache nor the store holds gives
/// `None`, not an error.
pub proof fn lemma_find_absent(
    cached: Map<u128, ElectionView>,
    id: u128,
    r: Result<Option<ElectionView>, DatabaseError>,
)
    requires
        !cached.contains_key(id),
        found(cached, None, id, r),
    ensures
        r == Ok::<Option<ElectionView>, DatabaseError>(None),
{
}

/// Finding an election whose stream was deleted gives `None`, when the
/// cache holds nothing for it and the events before the deletion are
/// readable.
pub proof fn lemma_find_deleted(
    cached: Map<u128, ElectionView>,
    id: u128,
    before: Seq<EventView>,
    later: Seq<EventView>,
    payload: Seq<(Seq<char>, FieldData)>,
    r: Result<Option<ElectionView>, DatabaseError>,
)
    requires
        !cached.contains_key(id),
        fold::<ElectionProjector>(before) is Running,
        found(cached, Some(before.push(EventView { kind: EventType::Delete, payload }) + later), id, r),
    ensures
        r == Ok::<Option<ElectionView>, DatabaseError>(None),
{
    let evs = before.push(EventView { kind: EventType::Delete, payload }) + later;
    let i = before.len() as int + 1;
    assert(evs.take(i) =~= before.push(EventView { kind: EventType::Delete, payload }));
    assert(evs.take(i).drop_last() =~= before);
    lemma_fold_stays_stopped::<ElectionProjector>(evs, i);
}

/// Updating an election that neither the cache nor the store holds is
/// `NotFound`, and writes nothing.
pub proof fn lemma_update_absent(
    cached: Map<u128, ElectionView>,
    id: u128,
    cur: Result<Option<ElectionView>, DatabaseError>,
    upd: UpdateView,
    blank: bool,
    r: Result<ElectionView, DatabaseError>,
    after: Option<Seq<EventView>>,
    cache_after: Map<u128, ElectionView>,
)
    requires
        !cached.contains_key(id),
        found(cached, None, id, cur),
        update_outcome(cur, cached, id, upd, blank, r, None, after, cache_after),
    ensures
        r == Err::<ElectionView, DatabaseError>(DatabaseError::NotFound),
        after is None,
{
}

/// With a coherent cache a lookup gives the projection of the stream,
/// whether or not the cache served it.
pub proof fn lemma_coherent_lookup(
    cached: Map<u128, ElectionView>,
    conn: MockConnection,
    id: u128,
    r: Result<Option<ElectionView>, DatabaseError>,
)
    requires
        coherent(cached, conn),
        found(cached, conn.stream(stream_name(id)), id, r),
    ensures
        r == read_spec::<ElectionProjector>(conn.stream(stream_name(id))),
{
}

/// An edit followed by a lookup, with a coherent cache: the lookup gives the
/// edited election and never the value from before the edit. `before` are
/// the events of the stream of `id` that projected to `e`, and the edit
/// appended `upd`.
pub proof fn lemma_find_after_update(
    cached: Map<u128, ElectionView>,
    conn: MockConnection,
    id: u128,
    before: Seq<EventView>,
    e: ElectionView,
    upd: UpdateView,
    r: Result<Option<ElectionView>, DatabaseError>,
)
    requires
        read_spec::<ElectionProjector>(Some(before)) == Ok::<Option<ElectionView>, DatabaseError>(Some(e)),
        conn.stream(stream_name(id)) == Some(appended(Some(before), update_event(upd))),
        coherent(cached, conn),
        found(cached, conn.stream(stream_name(id)), id, r),
    ensures
        r == Ok::<Option<ElectionView>, DatabaseError>(Some(merged(e, upd))),
{
    lemma_update_appended(before, e, upd);
}

/// What an edit does once the current state is known.
#[derive(Debug)]
pub enum UpdatePlan {
    /// The edit fails with this error and writes nothing.
    Stop(DatabaseError),
    /// The input is blank: the current election is the answer and nothing is written.
    Unchanged(Election),
    /// This update event is appended, and the merged election is the answer.
    Append(UpdateElectionEvent, Election),
}

/// Decides an edit from the current state of the election: an error stops
/// it, an absent election is `NotFound`, a blank input leaves the election
/// unchanged, and otherwise the update of the present fields is appended and
/// merged into the current election.
pub fn plan_update(current: Result<Option<Election>, DatabaseError>, input: ElectionInput) -> (r: UpdatePlan)
    ensures
        current matches Err(x) ==> r == UpdatePlan::Stop(x),
        current matches Ok(None) ==> r == UpdatePlan::Stop(DatabaseError::NotFound),
        (current is Ok && current->Ok_0 is Some && input.is_blank()) ==> (r is Unchanged
            && r->Unchanged_0@ == current->Ok_0->Some_0@),
        (current is Ok && current->Ok_0 is Some && !input.is_blank()) ==> (r is Append
            && r->Append_0@ == update_of(input) && r->Append_1@ == merged(current->Ok_0->Some_0@, update_of(input))),
{
    let original = match current {
        Ok(Some(e)) => e,
        Ok(None) => return UpdatePlan::Stop(DatabaseError::NotFound),
        Err(x) => return UpdatePlan::Stop(x),
    };
    if input.is_empty() {
        return UpdatePlan::Unchanged(original);
    }
    let event_data = UpdateElectionEvent::from_input(input);
    let ghost u = event_data@;
    let copy = UpdateElectionEvent {
        name: match &event_data.name {
            Some(n) => Some(n.clone()),
            None => None,
        },
        description: match &event_data.description {
            Some(d) => Some(d.clone()),
            None => None,
        },
        start_date: event_data.start_date,
        end_date: event_data.end_date,
        importance: event_data.importance,
        choices: match &event_data.choices {
            Some(c) => Some(copy_texts(c)),
            None => None,
        },
    };
    assert(copy@ == u);
    let updated = original.merge_with(copy);
    UpdatePlan::Append(event_data, updated)
}

/// The current election as a store read gives it: an absent or deleted
/// stream is `None`, other errors pass on, and events are projected.
pub fn current_from_read(read: Result<Vec<RawEvent>, DatabaseError>) -> (r: Result<Option<Election>, DatabaseError>)
    ensures
        read matches Ok(evs) ==> projected(r) == project_spec::<ElectionProjector>(events_view(evs@)),
        read matches Err(x) ==> (if x is NotFound {
            r matches Ok(None)
        } else {
            r matches Err(y) && y == x
        }),
{
    match read {
        Ok(events) => project_election(&events),
        Err(DatabaseError::NotFound) => Ok(None),
        Err(x) => Err(x),
    }
}

/// Creates, edits and finds elections: events go to the store, and the
/// current state of an election is read through a bounded cache whose
/// entries live for a fixed time.
pub struct ElectionRepository {
    cache: ElectionCache,
    time_to_live: u64,
}

impl ElectionRepository {
    /// The entries of the cache, by election id.
    pub closed spec fn cached(&self) -> Map<u128, ElectionView> {
        cache_entries(self.cache)
    }

    /// The number of entries the cache holds at most.
    pub closed spec fn capacity(&self) -> nat {
        cache_capacity(self.cache)
    }

    /// How long a cache entry lives, in seconds.
    pub closed spec fn ttl(&self) -> u64 {
        self.time_to_live
    }

    /// A repository with an empty cache of that capacity and time to live (in
    /// seconds).
    pub fn new(cache_capacity: usize, time_to_live: u64) -> (r: ElectionRepository)
        requires
            time_to_live <= MAX_TTL_SECONDS,
        ensures
            r.cached().dom() == Set::<u128>::empty(),
            r.capacity() == cache_capacity,
            r.ttl() == time_to_live,
    {
        ElectionRepository { cache: cache_new(cache_capacity), time_to_live }
    }

    /// Creates an election from `input`, made by `creator_id`: a new id, the
    /// defaults for absent fields (one clock reading for absent dates), and one
    /// creation event on the election's stream. The election is returned as
    /// the event describes it.
    pub fn create_election(&self, election: ElectionInput, creator_id: &str, conn: &mut MockConnection) -> (r: Result<Election, DatabaseError>)
        requires
            election.name is Some,
            old(conn).wf(),
        ensures
            final(conn).wf(),
            r matches Ok(e) && (exists|t: Timestamp| e@ == election_of(#[trigger] new_payload(election, e.id, creator_id@, t, t))
                && final(conn).stream(stream_name(e.id)) == Some(appended(
                    old(conn).stream(stream_name(e.id)),
                    create_event(new_payload(election, e.id, creator_id@, t, t)),
                ))) && (forall|n: Seq<char>| n != stream_name(e.id) ==> #[trigger] final(conn).stream(n) == old(conn).stream(n))
                && ((coherent(self.cached(), *old(conn)) && !self.cached().contains_key(e.id)) ==> coherent(self.cached(), *final(conn))),
    {
        let id = new_uuid();
        let stream_id = election_stream(id);
        let clock = now();
        let event_data = creation_event(election, id, creator_id, clock, clock);
        let ghost c = event_data@;
        let payload = encode_create(&event_data);
        let ghost before = *conn;
        let written = conn.write_event(stream_id.as_str(), EventType::Create, payload);
        match written {
            Ok(()) => {},
            Err(e) => return Err(e),
        }
        let created = Election::from_create(event_data);
        assert(created@ == election_of(new_payload(election, id, creator_id@, clock, clock)));
        proof {
            if coherent(self.cached(), before) && !self.cached().contains_key(id) {
                assert forall|k: u128| #[trigger] self.cached().contains_key(k) implies read_spec::<ElectionProjector>(
                    conn.stream(stream_name(k))) == Ok::<Option<ElectionView>, DatabaseError>(Some(self.cached()[k])) by {
                    if stream_name(k) == stream_name(id) {
                        lemma_stream_name_injective(k, id);
                    }
                }
            }
        }
        Ok(created)
    }

    /// A copy of the live cache entry of election `id`, if there is one.
    pub fn cache_entry(&self, id: u128) -> (r: Option<Election>)
        ensures
            r matches Some(e) ==> self.cached().contains_key(id) && self.cached()[id] == e@,
    {
        match cache_get(&self.cache, id) {
            Some(e) => Some(e.duplicate()),
            None => None,
        }
    }

    /// Finds an election: from the cache when it holds a live entry, else by
    /// projecting the election's stream, storing a found election in the cache.
    /// An absent or deleted stream gives `None`, not an error.
    pub fn find_election(&mut self, id: u128, conn: &MockConnection) -> (r: Result<Option<Election>, DatabaseError>)
        requires
            conn.wf(),
            old(self).ttl() <= MAX_TTL_SECONDS,
        ensures
            final(self).capacity() == old(self).capacity(),
            final(self).ttl() == old(self).ttl(),
            looked_up(old(self).cached(), final(self).cached(), old(self).capacity(), conn.stream(stream_name(id)), id, projected(r)),
            coherent(old(self).cached(), *conn) ==> coherent(final(self).cached(), *conn),
    {
        match cache_get(&self.cache, id) {
            Some(e) => {
                let hit = e.duplicate();
                return Ok(Some(hit));
            },
            None => {},
        }
        let stream_id = election_stream(id);
        let result = conn.read::<ElectionProjector>(stream_id.as_str());
        match result {
            Ok(Some(e)) => {
                let copy = e.duplicate();
                cache_insert(&mut self.cache, id, copy, self.time_to_live);
                Ok(Some(e))
            },
            other => other,
        }
    }

    /// Edits an election: a blank input returns the current election and
    /// writes nothing; otherwise one update event with the present fields is
    /// appended, the cache entry is dropped, and the current election merged
    /// with the update is returned. An absent election is `NotFound`.
    pub fn update_election(&mut self, id: u128, input: ElectionInput, conn: &mut MockConnection) -> (r: Result<Election, DatabaseError>)
        requires
            old(conn).wf(),
            old(self).ttl() <= MAX_TTL_SECONDS,
        ensures
            final(conn).wf(),
            final(self).capacity() == old(self).capacity(),
            final(self).ttl() == old(self).ttl(),
            exists|cur: Result<Option<ElectionView>, DatabaseError>, mid: Map<u128, ElectionView>|
                looked_up(old(self).cached(), mid, old(self).capacity(), old(conn).stream(stream_name(id)), id, cur)
                && #[trigger] update_outcome(
                    cur,
                    mid,
                    id,
                    update_of(input),
                    input.is_blank(),
                    outcome(r),
                    old(conn).stream(stream_name(id)),
                    final(conn).stream(stream_name(id)),
                    final(self).cached(),
                ),
            forall|n: Seq<char>| n != stream_name(id) ==> #[trigger] final(conn).stream(n) == old(conn).stream(n),
            (r is Ok && !input.is_blank()) ==> !final(self).cached().contains_key(id),
            coherent(old(self).cached(), *old(conn)) ==> coherent(final(self).cached(), *final(conn)),
    {
        let ghost cached0 = self.cached();
        let ghost conn0 = *conn;
        let ghost stream0 = conn.stream(stream_name(id));
        let current = self.find_election(id, conn);
        let ghost cur = projected(current);
        let ghost mid = self.cached();
        assert(looked_up(cached0, mid, self.capacity(), stream0, id, cur));
        let ghost upd_view = update_of(input);
        let ghost blank_view = input.is_blank();
        let (event_data, updated) = match plan_update(current, input) {
            UpdatePlan::Stop(x) => {
                assert(update_outcome(cur, mid, id, upd_view, blank_view, Err(x), stream0, stream0, mid));
                return Err(x);
            },
            UpdatePlan::Unchanged(e) => {
                assert(update_outcome(cur, mid, id, upd_view, blank_view, Ok(e@), stream0, stream0, mid));
                return Ok(e);
            },
            UpdatePlan::Append(u, e) => (u, e),
        };
        let stream_id = election_stream(id);
        let payload = encode_update(&event_data);
        let written = conn.write_event(stream_id.as_str(), EventType::Update, payload);
        match written {
            Ok(()) => {},
            Err(e) => return Err(e),
        }
        cache_remove(&mut self.cache, id);
        assert(update_outcome(cur, mid, id, upd_view, blank_view, Ok(updated@), stream0, conn.stream(stream_name(id)), self.cached()));
        proof {
            if coherent(cached0, conn0) {
                assert forall|k: u128| #[trigger] self.cached().contains_key(k) implies read_spec::<ElectionProjector>(
                    conn.stream(stream_name(k))) == Ok::<Option<ElectionView>, DatabaseError>(Some(self.cached()[k])) by {
                    assert(mid.contains_key(k) && k != id);
                    if stream_name(k) == stream_name(id) {
                        lemma_stream_name_injective(k, id);
                    }
                }
            }
        }
        Ok(updated)
    }
}

} // verus!
