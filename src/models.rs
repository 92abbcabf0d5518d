use vstd::prelude::*;
use crate::schema::{opt_text, opt_texts, texts, Election, ElectionInput, ElectionView, Importance, Timestamp};

verus! {

/// Applies an update onto an existing value, keeping what the update leaves out.
pub trait Merge<T>: Sized + View {
    /// The value after merging `new` into `base`.
    spec fn merge_spec(base: Self::V, new: T) -> Self::V;

    fn merge_with(self, new: T) -> (r: Self)
        ensures
            r@ == Self::merge_spec(self@, new),
    ;
}

/// The full field set of a new election, as recorded in its first event.
#[derive(Debug)]
pub struct CreateElectionEvent {
    pub id: u128,
    pub name: String,
    pub description: String,
    pub start_date: Timestamp,
    pub end_date: Timestamp,
    pub importance: Importance,
    pub created_by_id: String,
    pub choices: Vec<String>,
}

/// The value of a creation payload.
pub struct CreateView {
    pub id: u128,
    pub name: Seq<char>,
    pub description: Seq<char>,
    pub start_date: Timestamp,
    pub end_date: Timestamp,
    pub importance: Importance,
    pub created_by_id: Seq<char>,
    pub choices: Seq<Seq<char>>,
}

impl View for CreateElectionEvent {
    type V = CreateView;

    open spec fn view(&self) -> CreateView {
        CreateView {
            id: self.id,
            name: self.name@,
            description: self.description@,
            start_date: self.start_date,
            end_date: self.end_date,
            importance: self.importance,
            created_by_id: self.created_by_id@,
            choices: texts(self.choices@),
        }
    }
}

/// The fields changed by an edit; an absent field is left as it was.
#[derive(Debug)]
pub struct UpdateElectionEvent {
    pub name: Option<String>,
    pub description: Option<String>,
    pub start_date: Option<Timestamp>,
    pub end_date: Option<Timestamp>,
    pub importance: Option<Importance>,
    pub choices: Option<Vec<String>>,
}

/// The value of an update payload.
pub struct UpdateView {
    pub name: Option<Seq<char>>,
    pub description: Option<Seq<char>>,
    pub start_date: Option<Timestamp>,
    pub end_date: Option<Timestamp>,
    pub importance: Option<Importance>,
    pub choices: Option<Seq<Seq<char>>>,
}

impl View for UpdateElectionEvent {
    type V = UpdateView;

    open spec fn view(&self) -> UpdateView {
        UpdateView {
            name: opt_text(self.name),
            description: opt_text(self.description),
            start_date: self.start_date,
            end_date: self.end_date,
            importance: self.importance,
            choices: opt_texts(self.choices),
        }
    }
}

/// The election that a creation payload describes.
pub open spec fn election_of(c: CreateView) -> ElectionView {
    ElectionView {
        id: c.id,
        name: c.name,
        description: c.description,
        choices: c.choices,
        start_date: c.start_date,
        end_date: c.end_date,
        importance: c.importance,
    }
}

/// `new` if present, else `old`.
pub open spec fn or_keep<T>(new: Option<T>, old: T) -> T {
    match new {
        Some(v) => v,
        None => old,
    }
}

/// The election after an update: each present field replaces the old one.
pub open spec fn merged(e: ElectionView, u: UpdateView) -> ElectionView {
    ElectionView {
        id: e.id,
        name: or_keep(u.name, e.name),
        description: or_keep(u.description, e.description),
        choices: or_keep(u.choices, e.choices),
        start_date: or_keep(u.start_date, e.start_date),
        end_date: or_keep(u.end_date, e.end_date),
        importance: or_keep(u.importance, e.importance),
    }
}

impl Election {
    /// The election that a creation payload describes.
    pub fn from_create(e: CreateElectionEvent) -> (r: Election)
        ensures
            r@ == election_of(e@),
    {
        Election {
            id: e.id,
            name: e.name,
            description: e.description,
            start_date: e.start_date,
            end_date: e.end_date,
            importance: e.importance,
            choices: e.choices,
        }
    }
}

impl Merge<UpdateElectionEvent> for Election {
    open spec fn merge_spec(base: ElectionView, new: UpdateElectionEvent) -> ElectionView {
        merged(base, new@)
    }

    fn merge_with(self, new: UpdateElectionEvent) -> (r: Election) {
        Election {
            id: self.id,
            name: match new.name {
                Some(n) => n,
                None => self.name,
            },
            description: match new.description {
                Some(d) => d,
                None => self.description,
            },
            choices: match new.choices {
                Some(c) => c,
                None => self.choices,
            },
            start_date: match new.start_date {
                Some(d) => d,
                None => self.start_date,
            },
            end_date: match new.end_date {
                Some(d) => d,
                None => self.end_date,
            },
            importance: match new.importance {
                Some(i) => i,
                None => self.importance,
            },
        }
    }
}

impl UpdateElectionEvent {
    /// The update that carries exactly the fields present in `input`.
    pub fn from_input(input: ElectionInput) -> (r: UpdateElectionEvent)
        ensures
            r@ == update_of(input),
    {
        UpdateElectionEvent {
            name: input.name,
            description: input.description,
            start_date: input.start_date,
            end_date: input.end_date,
            importance: input.importance,
            choices: input.choices,
        }
    }
}

/// The update payload built from an edit input.
pub open spec fn update_of(input: ElectionInput) -> UpdateView {
    UpdateView {
        name: opt_text(input.name),
        description: opt_text(input.description),
        start_date: input.start_date,
        end_date: input.end_date,
        importance: input.importance,
        choices: opt_texts(input.choices),
    }
}

} // verus!
