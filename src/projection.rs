use vstd::prelude::*;
use crate::codec::{
    create_record, decode_create, decode_create_spec, decode_update, decode_update_spec, lemma_create_round_trip,
    lemma_update_round_trip, update_record, FieldData, PayloadError, Record,
};
use crate::errors::DatabaseError;
use crate::models::{election_of, merged, CreateView, Merge, UpdateView};
use crate::schema::{Election, ElectionView};

verus! {

/// The kind of an event: creation, update or deletion of the entity.
#[derive(Debug, Clone, Copy, PartialEq, Eq, Structural)]
pub enum EventType {
    Create,
    Update,
    Delete,
}

/// The tag under which an event kind is stored.
pub open spec fn kind_name(k: EventType) -> Seq<char> {
    match k {
        EventType::Create => "create"@,
        EventType::Update => "update"@,
        EventType::Delete => "delete"@,
    }
}

/// The kind that a stored tag names; an unknown tag reads as a creation.
pub open spec fn kind_of(s: Seq<char>) -> EventType {
    if s == "update"@ {
        EventType::Update
    } else if s == "delete"@ {
        EventType::Delete
    } else {
        EventType::Create
    }
}

impl EventType {
    /// The tag under which the kind is stored.
    pub fn as_str(&self) -> (r: &'static str)
        ensures
            r@ == kind_name(*self),
    {
        match self {
            EventType::Create => "create",
            EventType::Update => "update",
            EventType::Delete => "delete",
        }
    }

    /// Reads a stored tag into a kind, once, at the store boundary.
    pub fn from_name(s: &str) -> (r: EventType)
        ensures
            r == kind_of(s@),
    {
        let t = s.to_owned();
        if t == "update".to_owned() {
            EventType::Update
        } else if t == "delete".to_owned() {
            EventType::Delete
        } else {
            EventType::Create
        }
    }
}

/// Reading a kind's own tag gives the kind back.
pub proof fn lemma_kind_name_round_trip(k: EventType)
    ensures
        kind_of(kind_name(k)) == k,
{
    reveal_strlit("create");
    reveal_strlit("update");
    reveal_strlit("delete");
    assert("create"@[0] != "update"@[0]);
    assert("create"@[0] != "delete"@[0]);
    assert("update"@[0] != "delete"@[0]);
}

/// One stored event: its kind and its payload record.
#[derive(Debug)]
pub struct RawEvent {
    pub kind: EventType,
    pub payload: Record,
}

/// The value of a stored event.
pub struct EventView {
    pub kind: EventType,
    pub payload: Seq<(Seq<char>, FieldData)>,
}

impl View for RawEvent {
    type V = EventView;

    open spec fn view(&self) -> EventView {
        EventView { kind: self.kind, payload: self.payload@ }
    }
}

/// The values of a list of stored events.
pub open spec fn events_view(v: Seq<RawEvent>) -> Seq<EventView> {
    v.map_values(|e: RawEvent| e@)
}

/// The rules that turn a stream's payloads into an entity: a creation
/// payload seeds the entity, an update payload is merged into it.
pub trait Projector {
    type Entity: View;

    /// The entity that a creation payload describes, or why it cannot be read.
    spec fn seed_spec(payload: Seq<(Seq<char>, FieldData)>) -> Result<<Self::Entity as View>::V, PayloadError>;

    /// The entity after an update payload, or why the payload cannot be read.
    spec fn merge_spec(
        current: <Self::Entity as View>::V,
        payload: Seq<(Seq<char>, FieldData)>,
    ) -> Result<<Self::Entity as View>::V, PayloadError>;

    /// Whether an update payload can be read, with no entity to merge it into.
    spec fn check_update_spec(payload: Seq<(Seq<char>, FieldData)>) -> Result<(), PayloadError>;

    fn check_update(payload: &Record) -> (r: Result<(), PayloadError>)
        ensures
            r == Self::check_update_spec(payload@),
    ;

    fn seed(payload: &Record) -> (r: Result<Self::Entity, PayloadError>)
        ensures
            r matches Ok(e) ==> Self::seed_spec(payload@) == Ok::<<Self::Entity as View>::V, PayloadError>(e@),
            r matches Err(x) ==> Self::seed_spec(payload@) == Err::<<Self::Entity as View>::V, PayloadError>(x),
    ;

    fn merge(current: Self::Entity, payload: &Record) -> (r: Result<Self::Entity, PayloadError>)
        ensures
            r matches Ok(e) ==> Self::merge_spec(current@, payload@) == Ok::<<Self::Entity as View>::V, PayloadError>(e@),
            r matches Err(x) ==> Self::merge_spec(current@, payload@) == Err::<<Self::Entity as View>::V, PayloadError>(x),
    ;
}

/// The rules for elections: a creation payload gives the election it
/// describes, and an update payload's present fields replace the old ones.
pub struct ElectionProjector;

impl Projector for ElectionProjector {
    type Entity = Election;

    open spec fn seed_spec(payload: Seq<(Seq<char>, FieldData)>) -> Result<ElectionView, PayloadError> {
        match decode_create_spec(payload) {
            Ok(c) => Ok(election_of(c)),
            Err(e) => Err(e),
        }
    }

    open spec fn merge_spec(current: ElectionView, payload: Seq<(Seq<char>, FieldData)>) -> Result<ElectionView, PayloadError> {
        match decode_update_spec(payload) {
            Ok(u) => Ok(merged(current, u)),
            Err(e) => Err(e),
        }
    }

    open spec fn check_update_spec(payload: Seq<(Seq<char>, FieldData)>) -> Result<(), PayloadError> {
        match decode_update_spec(payload) {
            Ok(_) => Ok(()),
            Err(e) => Err(e),
        }
    }

    fn check_update(payload: &Record) -> (r: Result<(), PayloadError>) {
        match decode_update(payload) {
            Ok(_) => Ok(()),
            Err(e) => Err(e),
        }
    }

    fn seed(payload: &Record) -> (r: Result<Election, PayloadError>) {
        match decode_create(payload) {
            Ok(c) => Ok(Election::from_create(c)),
            Err(e) => Err(e),
        }
    }

    fn merge(current: Election, payload: &Record) -> (r: Result<Election, PayloadError>) {
        match decode_update(payload) {
            Ok(u) => Ok(current.merge_with(u)),
            Err(e) => Err(e),
        }
    }
}

/// Where a fold stands: still running with the state so far, stopped by a
/// deletion, or stopped by a payload that could not be read.
pub enum FoldState<V> {
    Running(Option<V>),
    Deleted,
    Failed(PayloadError),
}

/// One step of the fold: a creation seeds (and replaces) the state, an
/// update merges into a present state and, once read, is dropped on an
/// absent one, and a deletion stops the fold. A payload that cannot be read
/// stops the fold with its error.
pub open spec fn step<P: Projector>(st: FoldState<<P::Entity as View>::V>, ev: EventView) -> FoldState<<P::Entity as View>::V> {
    match st {
        FoldState::Running(acc) => match ev.kind {
            EventType::Create => match P::seed_spec(ev.payload) {
                Ok(e) => FoldState::Running(Some(e)),
                Err(x) => FoldState::Failed(x),
            },
            EventType::Update => match acc {
                None => match P::check_update_spec(ev.payload) {
                    Ok(()) => FoldState::Running(None),
                    Err(x) => FoldState::Failed(x),
                },
                Some(cur) => match P::merge_spec(cur, ev.payload) {
                    Ok(e) => FoldState::Running(Some(e)),
                    Err(x) => FoldState::Failed(x),
                },
            },
            EventType::Delete => FoldState::Deleted,
        },
        other => other,
    }
}

/// The fold of a stream's events, in order, from an empty state.
pub open spec fn fold<P: Projector>(events: Seq<EventView>) -> FoldState<<P::Entity as View>::V>
    decreases events.len(),
{
    if events.len() == 0 {
        FoldState::Running(None)
    } else {
        step::<P>(fold::<P>(events.drop_last()), events.last())
    }
}

/// The current state that a stream's events give: the entity, `None` for a
/// deleted stream or one with no creation, or the payload error that stopped it.
pub open spec fn project_spec<P: Projector>(events: Seq<EventView>) -> Result<Option<<P::Entity as View>::V>, DatabaseError> {
    match fold::<P>(events) {
        FoldState::Running(acc) => Ok(acc),
        FoldState::Deleted => Ok(None),
        FoldState::Failed(e) => Err(DatabaseError::SerializationError(e)),
    }
}

/// The view of a projection's result.
pub open spec fn projected<E: View>(r: Result<Option<E>, DatabaseError>) -> Result<Option<E::V>, DatabaseError> {
    match r {
        Ok(Some(x)) => Ok(Some(x@)),
        Ok(None) => Ok(None),
        Err(e) => Err(e),
    }
}

/// Once stopped, a fold stays where it stopped, whatever events follow.
pub proof fn lemma_fold_stays_stopped<P: Projector>(events: Seq<EventView>, i: int)
    requires
        0 <= i <= events.len(),
        !(fold::<P>(events.take(i)) is Running),
    ensures
        fold::<P>(events) == fold::<P>(events.take(i)),
    decreases events.len() - i,
{
    if i < events.len() {
        assert(events.take(i + 1).drop_last() =~= events.take(i));
        lemma_fold_stays_stopped::<P>(events, i + 1);
    } else {
        assert(events.take(i) =~= events);
    }
}

/// Folds a stream's events, in order, into the current entity.
pub fn project<P: Projector>(events: &Vec<RawEvent>) -> (r: Result<Option<P::Entity>, DatabaseError>)
    ensures
        projected(r) == project_spec::<P>(events_view(events@)),
{
    let ghost evs = events_view(events@);
    let mut acc: Option<P::Entity> = None;
    let mut i: usize = 0;
    assert(evs.take(0) =~= Seq::<EventView>::empty());
    while i < events.len()
        invariant
            0 <= i <= events@.len(),
            evs == events_view(events@),
            fold::<P>(evs.take(i as int)) == FoldState::Running(match acc {
                Some(e) => Some(e@),
                None => None::<<P::Entity as View>::V>,
            }),
        decreases events@.len() - i,
    {
        let ev = &events[i];
        assert(evs.take(i + 1).drop_last() =~= evs.take(i as int));
        assert(evs.take(i + 1).last() == ev@);
        match ev.kind {
            EventType::Create => {
                match P::seed(&ev.payload) {
                    Ok(e) => {
                        acc = Some(e);
                    },
                    Err(x) => {
                        proof { lemma_fold_stays_stopped::<P>(evs, i + 1); }
                        return Err(DatabaseError::SerializationError(x));
                    },
                }
            },
            EventType::Update => {
                acc = match acc {
                    None => match P::check_update(&ev.payload) {
                        Ok(()) => None,
                        Err(x) => {
                            proof { lemma_fold_stays_stopped::<P>(evs, i + 1); }
                            return Err(DatabaseError::SerializationError(x));
                        },
                    },
                    Some(cur) => match P::merge(cur, &ev.payload) {
                        Ok(e) => Some(e),
                        Err(x) => {
                            proof { lemma_fold_stays_stopped::<P>(evs, i + 1); }
                            return Err(DatabaseError::SerializationError(x));
                        },
                    },
                };
            },
            EventType::Delete => {
                proof { lemma_fold_stays_stopped::<P>(evs, i + 1); }
                return Ok(None);
            },
        }
        i += 1;
    }
    assert(evs.take(i as int) =~= evs);
    Ok(acc)
}

/// Folds an election stream's events into the current election.
pub fn project_election(events: &Vec<RawEvent>) -> (r: Result<Option<Election>, DatabaseError>)
    ensures
        projected(r) == project_spec::<ElectionProjector>(events_view(events@)),
{
    project::<ElectionProjector>(events)
}

/// The stored form of a creation event.
pub open spec fn create_event(c: CreateView) -> EventView {
    EventView { kind: EventType::Create, payload: create_record(c) }
}

/// The stored form of an update event.
pub open spec fn update_event(u: UpdateView) -> EventView {
    EventView { kind: EventType::Update, payload: update_record(u) }
}

/// A creation appended to a stream that was not stopped makes the stream
/// project to the created election, whatever came before.
pub proof fn lemma_create_appended(events: Seq<EventView>, c: CreateView)
    requires
        fold::<ElectionProjector>(events) is Running,
    ensures
        project_spec::<ElectionProjector>(events.push(create_event(c))) == Ok::<Option<ElectionView>, DatabaseError>(Some(election_of(c))),
{
    lemma_create_round_trip(c);
    assert(events.push(create_event(c)).drop_last() =~= events);
}

/// An update appended to a stream that projects to an election makes the
/// stream project to that election merged with the update.
pub proof fn lemma_update_appended(events: Seq<EventView>, e: ElectionView, u: UpdateView)
    requires
        project_spec::<ElectionProjector>(events) == Ok::<Option<ElectionView>, DatabaseError>(Some(e)),
    ensures
        project_spec::<ElectionProjector>(events.push(update_event(u))) == Ok::<Option<ElectionView>, DatabaseError>(Some(merged(e, u))),
{
    lemma_update_round_trip(u);
    assert(events.push(update_event(u)).drop_last() =~= events);
}

/// Projection and the in-memory merge agree: the stream of a creation and
/// an update projects to the created election merged with the update.
pub proof fn lemma_projection_agrees_with_merge(c: CreateView, u: UpdateView)
    ensures
        project_spec::<ElectionProjector>(seq![create_event(c), update_event(u)])
            == Ok::<Option<ElectionView>, DatabaseError>(Some(merged(election_of(c), u))),
{
    let empty = Seq::<EventView>::empty();
    lemma_create_appended(empty, c);
    lemma_update_appended(empty.push(create_event(c)), election_of(c), u);
    assert(empty.push(create_event(c)).push(update_event(u)) =~= seq![create_event(c), update_event(u)]);
}

} // verus!
