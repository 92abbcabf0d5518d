use vstd::prelude::*;

verus! {

/// The character sequences of a list of strings.
pub open spec fn texts(v: Seq<String>) -> Seq<Seq<char>> {
    v.map_values(|s: String| s@)
}

/// The character sequences of an optional list of strings.
pub open spec fn opt_texts(v: Option<Vec<String>>) -> Option<Seq<Seq<char>>> {
    match v {
        Some(l) => Some(texts(l@)),
        None => None,
    }
}

/// The character sequence of an optional string.
pub open spec fn opt_text(s: Option<String>) -> Option<Seq<char>> {
    match s {
        Some(t) => Some(t@),
        None => None,
    }
}

/// Copies a list of strings, element by element.
pub fn copy_texts(v: &Vec<String>) -> (r: Vec<String>)
    ensures
        r@ == v@,
{
    let mut r: Vec<String> = Vec::new();
    let mut i: usize = 0;
    while i < v.len()
        invariant
            0 <= i <= v@.len(),
            r@ == v@.subrange(0, i as int),
        decreases v@.len() - i,
    {
        r.push(v[i].clone());
        assert(r@ =~= v@.subrange(0, i + 1));
        i += 1;
    }
    assert(r@ =~= v@);
    r
}

/// The importance of an election. Affects sorting and filtering.
#[derive(Debug, Clone, Copy, PartialEq, Eq, Structural)]
pub enum Importance {
    Important,
    Regular,
    Minor,
}

/// The name under which an importance is written.
pub open spec fn importance_name(i: Importance) -> Seq<char> {
    match i {
        Importance::Important => "Important"@,
        Importance::Regular => "Regular"@,
        Importance::Minor => "Minor"@,
    }
}

impl Importance {
    /// The name of the importance.
    pub fn name(&self) -> (r: &'static str)
        ensures
            r@ == importance_name(*self),
    {
        match self {
            Importance::Important => "Important",
            Importance::Regular => "Regular",
            Importance::Minor => "Minor",
        }
    }

    /// Reads an importance back from its name; any other text gives `None`.
    pub fn parse(s: &str) -> (r: Option<Importance>)
        ensures
            r matches Some(i) ==> importance_name(i) == s@,
            r is None ==> forall|i: Importance| importance_name(i) != s@,
    {
        let t = s.to_owned();
        if t == "Important".to_owned() {
            Some(Importance::Important)
        } else if t == "Regular".to_owned() {
            Some(Importance::Regular)
        } else if t == "Minor".to_owned() {
            Some(Importance::Minor)
        } else {
            None
        }
    }
}

/// A point in time: whole seconds since the Unix epoch and the nanoseconds
/// past that second.
#[derive(Debug, Clone, Copy, PartialEq, Eq, Structural)]
pub struct Timestamp {
    pub seconds: i64,
    pub nanos: u32,
}

/// Who may do what with an election, by role.
#[derive(Debug, Clone)]
pub struct PermissionSet {
    /// The roles allowed to view the election and its results. Defaults to all.
    pub view_roles: Option<Vec<String>>,
    /// The roles allowed to vote in the election. Defaults to all.
    pub vote_roles: Option<Vec<String>>,
    /// The roles allowed to edit the election metadata. Defaults to none.
    pub edit_roles: Option<Vec<String>>,
    /// The roles allowed full access to the election. Defaults to none.
    pub admin_roles: Option<Vec<String>>,
}

impl Default for PermissionSet {
    fn default() -> (r: Self)
        ensures
            opt_texts(r.view_roles) == Some(seq!["@all"@]),
            opt_texts(r.vote_roles) == Some(seq!["@all"@]),
            opt_texts(r.edit_roles) == Some(Seq::<Seq<char>>::empty()),
            opt_texts(r.admin_roles) == Some(Seq::<Seq<char>>::empty()),
    {
        let view_roles = vec!["@all".to_owned()];
        let vote_roles = vec!["@all".to_owned()];
        assert(texts(view_roles@) =~= seq!["@all"@]);
        assert(texts(vote_roles@) =~= seq!["@all"@]);
        let edit_roles: Vec<String> = Vec::new();
        let admin_roles: Vec<String> = Vec::new();
        assert(texts(edit_roles@) =~= Seq::<Seq<char>>::empty());
        assert(texts(admin_roles@) =~= Seq::<Seq<char>>::empty());
        PermissionSet {
            view_roles: Some(view_roles),
            vote_roles: Some(vote_roles),
            edit_roles: Some(edit_roles),
            admin_roles: Some(admin_roles),
        }
    }
}

/// The value of an election, with strings as character sequences.
pub struct ElectionView {
    pub id: u128,
    pub name: Seq<char>,
    pub description: Seq<char>,
    pub choices: Seq<Seq<char>>,
    pub start_date: Timestamp,
    pub end_date: Timestamp,
    pub importance: Importance,
}

/// An election, as it stands after its events.
#[derive(Debug)]
pub struct Election {
    /// The id of the election (not user facing).
    pub id: u128,
    pub name: String,
    pub description: String,
    /// The available choices to vote for.
    pub choices: Vec<String>,
    /// When voting starts.
    pub start_date: Timestamp,
    /// When voting ends.
    pub end_date: Timestamp,
    pub importance: Importance,
}

impl View for Election {
    type V = ElectionView;

    open spec fn view(&self) -> ElectionView {
        ElectionView {
            id: self.id,
            name: self.name@,
            description: self.description@,
            choices: texts(self.choices@),
            start_date: self.start_date,
            end_date: self.end_date,
            importance: self.importance,
        }
    }
}

/// The view of an optional election.
pub open spec fn opt_election(e: Option<Election>) -> Option<ElectionView> {
    match e {
        Some(x) => Some(x@),
        None => None,
    }
}

impl Election {
    /// A copy of the election, equal to it field by field.
    pub fn duplicate(&self) -> (r: Election)
        ensures
            r@ == self@,
    {
        Election {
            id: self.id,
            name: self.name.clone(),
            description: self.description.clone(),
            choices: copy_texts(&self.choices),
            start_date: self.start_date,
            end_date: self.end_date,
            importance: self.importance,
        }
    }
}

/// Input to create or to edit an election; every field may be absent.
#[derive(Debug)]
pub struct ElectionInput {
    pub name: Option<String>,
    /// Roles allowed to interact with the election, beyond the base permissions.
    pub permissions: Option<PermissionSet>,
    pub description: Option<String>,
    pub choices: Option<Vec<String>>,
    pub start_date: Option<Timestamp>,
    pub end_date: Option<Timestamp>,
    pub importance: Option<Importance>,
}

impl ElectionInput {
    /// Whether no field of the input is present.
    pub open spec fn is_blank(&self) -> bool {
        &&& self.name is None
        &&& self.permissions is None
        &&& self.description is None
        &&& self.choices is None
        &&& self.start_date is None
        &&& self.end_date is None
        &&& self.importance is None
    }

    /// Decides whether no field of the input is present.
    pub fn is_empty(&self) -> (r: bool)
        ensures
            r == self.is_blank(),
    {
        self.name.is_none() && self.permissions.is_none() && self.description.is_none()
            && self.choices.is_none() && self.start_date.is_none() && self.end_date.is_none()
            && self.importance.is_none()
    }
}

impl Default for ElectionInput {
    fn default() -> (r: Self)
        ensures
            r.is_blank(),
    {
        ElectionInput {
            name: None,
            permissions: None,
            description: None,
            choices: None,
            start_date: None,
            end_date: None,
            importance: None,
        }
    }
}

} // verus!
