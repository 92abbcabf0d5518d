use vstd::prelude::*;
use crate::codec::Record;
use crate::errors::DatabaseError;
use crate::projection::{events_view, project, project_spec, projected, EventType, EventView, Projector, RawEvent};

verus! {

/// One append-only stream: its name and its events in write order.
#[derive(Debug)]
pub struct Stream {
    pub name: String,
    pub events: Vec<RawEvent>,
}

/// An event store held in memory: streams by name, created on first append.
#[derive(Debug)]
pub struct MockConnection {
    streams: Vec<Stream>,
}

/// What reading a stream gives: `None` for an absent stream, else its projection.
pub open spec fn read_spec<P: Projector>(stream: Option<Seq<EventView>>) -> Result<Option<<P::Entity as View>::V>, DatabaseError> {
    match stream {
        None => Ok(None),
        Some(evs) => project_spec::<P>(evs),
    }
}

/// `s` with one event appended; an absent stream starts empty.
pub open spec fn appended(s: Option<Seq<EventView>>, ev: EventView) -> Seq<EventView> {
    match s {
        Some(evs) => evs.push(ev),
        None => seq![ev],
    }
}

impl MockConnection {
    /// No two streams share a name.
    pub closed spec fn wf(&self) -> bool {
        forall|i: int, j: int|
            0 <= i < j < self.streams@.len() ==> #[trigger] self.streams@[i].name@ != #[trigger] self.streams@[j].name@
    }

    /// Whether a stream of that name exists.
    pub closed spec fn has_stream(&self, name: Seq<char>) -> bool {
        exists|i: int| 0 <= i < self.streams@.len() && #[trigger] self.streams@[i].name@ == name
    }

    /// The events of the stream of that name, if it exists.
    pub closed spec fn stream(&self, name: Seq<char>) -> Option<Seq<EventView>> {
        if self.has_stream(name) {
            let i = choose|i: int| 0 <= i < self.streams@.len() && #[trigger] self.streams@[i].name@ == name;
            Some(events_view(self.streams@[i].events@))
        } else {
            None
        }
    }

    /// In a well-formed store the stream of a name is the one at its index.
    proof fn lemma_stream_at(&self, i: int)
        requires
            self.wf(),
            0 <= i < self.streams@.len(),
        ensures
            self.stream(self.streams@[i].name@) == Some(events_view(self.streams@[i].events@)),
    {
        let name = self.streams@[i].name@;
        assert(self.has_stream(name));
        let k = choose|k: int| 0 <= k < self.streams@.len() && #[trigger] self.streams@[k].name@ == name;
        if k < i {
            assert(self.streams@[k].name@ != self.streams@[i].name@);
        } else if k > i {
            assert(self.streams@[i].name@ != self.streams@[k].name@);
        }
    }

    /// A store with no streams.
    pub fn new() -> (r: MockConnection)
        ensures
            r.wf(),
            forall|n: Seq<char>| #[trigger] r.stream(n) is None,
    {
        MockConnection { streams: Vec::new() }
    }

    /// The index of the stream of that name.
    fn position(&self, name: &str) -> (r: Option<usize>)
        ensures
            r matches Some(i) ==> i < self.streams@.len() && self.streams@[i as int].name@ == name@,
            r is None ==> !self.has_stream(name@),
    {
        let wanted = name.to_owned();
        let mut i: usize = 0;
        while i < self.streams.len()
            invariant
                0 <= i <= self.streams@.len(),
                wanted@ == name@,
                forall|j: int| 0 <= j < i ==> #[trigger] self.streams@[j].name@ != name@,
            decreases self.streams@.len() - i,
        {
            if self.streams[i].name == wanted {
                return Some(i);
            }
            i += 1;
        }
        None
    }

    /// Appends one event to the named stream, creating the stream on first
    /// append. Other streams are untouched.
    pub fn write_event(&mut self, stream: &str, event_type: EventType, payload: Record) -> (r: Result<(), DatabaseError>)
        requires
            old(self).wf(),
        ensures
            r is Ok,
            final(self).wf(),
            final(self).stream(stream@) == Some(appended(old(self).stream(stream@), EventView { kind: event_type, payload: payload@ })),
            forall|n: Seq<char>| n != stream@ ==> #[trigger] final(self).stream(n) == old(self).stream(n),
    {
        let ghost before = *self;
        let ghost ev = EventView { kind: event_type, payload: payload@ };
        let event = RawEvent { kind: event_type, payload };
        match self.position(stream) {
            Some(i) => {
                proof { before.lemma_stream_at(i as int); }
                let mut s = self.streams.remove(i);
                s.events.push(event);
                assert(events_view(s.events@) =~= events_view(before.streams@[i as int].events@).push(ev));
                self.streams.insert(i, s);
                assert(self.streams@ =~= before.streams@.update(i as int, s));
                proof { self.lemma_stream_at(i as int); }
                assert forall|n: Seq<char>| n != stream@ implies #[trigger] self.stream(n) == before.stream(n) by {
                    if before.has_stream(n) {
                        let k = choose|k: int| 0 <= k < before.streams@.len() && #[trigger] before.streams@[k].name@ == n;
                        before.lemma_stream_at(k);
                        self.lemma_stream_at(k);
                    } else if self.has_stream(n) {
                        let k = choose|k: int| 0 <= k < self.streams@.len() && #[trigger] self.streams@[k].name@ == n;
                        assert(before.streams@[k].name@ == n);
                    }
                }
            },
            None => {
                let mut events: Vec<RawEvent> = Vec::new();
                events.push(event);
                assert(events_view(events@) =~= seq![ev]);
                let fresh = Stream { name: stream.to_owned(), events };
                self.streams.push(fresh);
                let ghost last = before.streams@.len() as int;
                assert(self.streams@ =~= before.streams@.push(fresh));
                assert forall|i: int, j: int| 0 <= i < j < self.streams@.len() implies
                    #[trigger] self.streams@[i].name@ != #[trigger] self.streams@[j].name@ by {
                    if j == last {
                        assert(before.streams@[i].name@ != stream@);
                    }
                }
                proof { self.lemma_stream_at(last); }
                assert forall|n: Seq<char>| n != stream@ implies #[trigger] self.stream(n) == before.stream(n) by {
                    if before.has_stream(n) {
                        let k = choose|k: int| 0 <= k < before.streams@.len() && #[trigger] before.streams@[k].name@ == n;
                        before.lemma_stream_at(k);
                        self.lemma_stream_at(k);
                    } else if self.has_stream(n) {
                        let k = choose|k: int| 0 <= k < self.streams@.len() && #[trigger] self.streams@[k].name@ == n;
                        assert(k != last);
                        assert(before.streams@[k].name@ == n);
                    }
                }
            },
        }
        Ok(())
    }
    /// The events of the named stream in write order; an absent stream is
    /// `NotFound`.
    pub fn read_all(&self, stream: &str) -> (r: Result<&Vec<RawEvent>, DatabaseError>)
        requires
            self.wf(),
        ensures
            r matches Ok(v) ==> self.stream(stream@) == Some(events_view(v@)),
            r matches Err(e) ==> e is NotFound && self.stream(stream@) is None,
    {
        match self.position(stream) {
            Some(i) => {
                proof { self.lemma_stream_at(i as int); }
                Ok(&self.streams[i].events)
            },
            None => Err(DatabaseError::NotFound),
        }
    }

    /// The current entity of the named stream: `None` when the stream is
    /// absent or deleted, else the projection of its events by `P`.
    pub fn read<P: Projector>(&self, stream: &str) -> (r: Result<Option<P::Entity>, DatabaseError>)
        requires
            self.wf(),
        ensures
            projected(r) == read_spec::<P>(self.stream(stream@)),
    {
        match self.read_all(stream) {
            Ok(events) => project::<P>(events),
            Err(_) => Ok(None),
        }
    }

    /// Appends a creation event to the named stream.
    pub fn create(&mut self, stream: &str, payload: Record) -> (r: Result<(), DatabaseError>)
        requires
            old(self).wf(),
        ensures
            r is Ok,
            final(self).wf(),
            final(self).stream(stream@) == Some(appended(old(self).stream(stream@), EventView { kind: EventType::Create, payload: payload@ })),
            forall|n: Seq<char>| n != stream@ ==> #[trigger] final(self).stream(n) == old(self).stream(n),
    {
        self.write_event(stream, EventType::Create, payload)
    }

    /// Appends an update event to the named stream.
    pub fn update(&mut self, stream: &str, payload: Record) -> (r: Result<(), DatabaseError>)
        requires
            old(self).wf(),
        ensures
            r is Ok,
            final(self).wf(),
            final(self).stream(stream@) == Some(appended(old(self).stream(stream@), EventView { kind: EventType::Update, payload: payload@ })),
            forall|n: Seq<char>| n != stream@ ==> #[trigger] final(self).stream(n) == old(self).stream(n),
    {
        self.write_event(stream, EventType::Update, payload)
    }

    /// Appends a deletion event to the named stream.
    pub fn delete(&mut self, stream: &str, payload: Record) -> (r: Result<(), DatabaseError>)
        requires
            old(self).wf(),
        ensures
            r is Ok,
            final(self).wf(),
            final(self).stream(stream@) == Some(appended(old(self).stream(stream@), EventView { kind: EventType::Delete, payload: payload@ })),
            forall|n: Seq<char>| n != stream@ ==> #[trigger] final(self).stream(n) == old(self).stream(n),
    {
        self.write_event(stream, EventType::Delete, payload)
    }
}

} // verus!
