use vstd::prelude::*;
use crate::models::{CreateElectionEvent, CreateView, UpdateElectionEvent, UpdateView};
use crate::schema::{copy_texts, opt_text, opt_texts, texts, Importance, Timestamp};

verus! {

/// One value in a payload record.
#[derive(Debug)]
pub enum FieldValue {
    Text(String),
    TextList(Vec<String>),
    Time(Timestamp),
    Level(Importance),
    Id(u128),
}

/// The value of a payload field, with strings as character sequences.
pub enum FieldData {
    Text(Seq<char>),
    TextList(Seq<Seq<char>>),
    Time(Timestamp),
    Level(Importance),
    Id(u128),
}

impl View for FieldValue {
    type V = FieldData;

    open spec fn view(&self) -> FieldData {
        match self {
            FieldValue::Text(s) => FieldData::Text(s@),
            FieldValue::TextList(l) => FieldData::TextList(texts(l@)),
            FieldValue::Time(t) => FieldData::Time(*t),
            FieldValue::Level(i) => FieldData::Level(*i),
            FieldValue::Id(n) => FieldData::Id(*n),
        }
    }
}

/// A named field of a payload record.
#[derive(Debug)]
pub struct Field {
    pub name: String,
    pub value: FieldValue,
}

/// The structured form in which an event payload is stored: named fields, in
/// the order in which they were written. A field left out of a record is absent.
#[derive(Debug)]
pub struct Record {
    pub fields: Vec<Field>,
}

/// The named values of a list of fields.
pub open spec fn fields_view(fs: Seq<Field>) -> Seq<(Seq<char>, FieldData)> {
    fs.map_values(|f: Field| (f.name@, f.value@))
}

/// The view of an optional field value.
pub open spec fn opt_data(v: Option<FieldValue>) -> Option<FieldData> {
    match v {
        Some(x) => Some(x@),
        None => None,
    }
}

impl View for Record {
    type V = Seq<(Seq<char>, FieldData)>;

    open spec fn view(&self) -> Seq<(Seq<char>, FieldData)> {
        fields_view(self.fields@)
    }
}

/// Why a payload record could not be read as the payload it should hold.
#[derive(Debug, Clone, Copy, PartialEq, Eq, Structural)]
pub enum PayloadError {
    /// A field that the payload requires is absent.
    MissingField,
    /// A field holds a value of another kind than the payload requires.
    WrongType,
}

/// The value of the first field called `name`, if there is one.
pub open spec fn lookup(fs: Seq<(Seq<char>, FieldData)>, name: Seq<char>) -> Option<FieldData>
    decreases fs.len(),
{
    if fs.len() == 0 {
        None
    } else if fs[0].0 == name {
        Some(fs[0].1)
    } else {
        lookup(fs.drop_first(), name)
    }
}

/// `fs` with the field `name` appended when `v` is present.
pub open spec fn push_present(
    fs: Seq<(Seq<char>, FieldData)>,
    name: Seq<char>,
    v: Option<FieldData>,
) -> Seq<(Seq<char>, FieldData)> {
    match v {
        Some(d) => fs.push((name, d)),
        None => fs,
    }
}

/// The record that encodes a creation payload.
pub open spec fn create_record(c: CreateView) -> Seq<(Seq<char>, FieldData)> {
    seq![
        ("id"@, FieldData::Id(c.id)),
        ("name"@, FieldData::Text(c.name)),
        ("description"@, FieldData::Text(c.description)),
        ("start_date"@, FieldData::Time(c.start_date)),
        ("end_date"@, FieldData::Time(c.end_date)),
        ("importance"@, FieldData::Level(c.importance)),
        ("created_by_id"@, FieldData::Text(c.created_by_id)),
        ("choices"@, FieldData::TextList(c.choices)),
    ]
}

/// The record that encodes an update payload: only its present fields.
pub open spec fn update_record(u: UpdateView) -> Seq<(Seq<char>, FieldData)> {
    let s0 = Seq::<(Seq<char>, FieldData)>::empty();
    let s1 = push_present(s0, "name"@, match u.name { Some(t) => Some(FieldData::Text(t)), None => None });
    let s2 = push_present(s1, "description"@, match u.description { Some(t) => Some(FieldData::Text(t)), None => None });
    let s3 = push_present(s2, "start_date"@, match u.start_date { Some(t) => Some(FieldData::Time(t)), None => None });
    let s4 = push_present(s3, "end_date"@, match u.end_date { Some(t) => Some(FieldData::Time(t)), None => None });
    let s5 = push_present(s4, "importance"@, match u.importance { Some(i) => Some(FieldData::Level(i)), None => None });
    push_present(s5, "choices"@, match u.choices { Some(l) => Some(FieldData::TextList(l)), None => None })
}

/// A required text field.
pub open spec fn text_field(fs: Seq<(Seq<char>, FieldData)>, name: Seq<char>) -> Result<Seq<char>, PayloadError> {
    match lookup(fs, name) {
        Some(FieldData::Text(t)) => Ok(t),
        Some(_) => Err(PayloadError::WrongType),
        None => Err(PayloadError::MissingField),
    }
}

/// A required list-of-text field.
pub open spec fn list_field(fs: Seq<(Seq<char>, FieldData)>, name: Seq<char>) -> Result<Seq<Seq<char>>, PayloadError> {
    match lookup(fs, name) {
        Some(FieldData::TextList(l)) => Ok(l),
        Some(_) => Err(PayloadError::WrongType),
        None => Err(PayloadError::MissingField),
    }
}

/// A required time field.
pub open spec fn time_field(fs: Seq<(Seq<char>, FieldData)>, name: Seq<char>) -> Result<Timestamp, PayloadError> {
    match lookup(fs, name) {
        Some(FieldData::Time(t)) => Ok(t),
        Some(_) => Err(PayloadError::WrongType),
        None => Err(PayloadError::MissingField),
    }
}

/// A required importance field.
pub open spec fn level_field(fs: Seq<(Seq<char>, FieldData)>, name: Seq<char>) -> Result<Importance, PayloadError> {
    match lookup(fs, name) {
        Some(FieldData::Level(i)) => Ok(i),
        Some(_) => Err(PayloadError::WrongType),
        None => Err(PayloadError::MissingField),
    }
}

/// A required id field.
pub open spec fn id_field(fs: Seq<(Seq<char>, FieldData)>, name: Seq<char>) -> Result<u128, PayloadError> {
    match lookup(fs, name) {
        Some(FieldData::Id(n)) => Ok(n),
        Some(_) => Err(PayloadError::WrongType),
        None => Err(PayloadError::MissingField),
    }
}

/// An optional text field: absent is `None`.
pub open spec fn opt_text_field(fs: Seq<(Seq<char>, FieldData)>, name: Seq<char>) -> Result<Option<Seq<char>>, PayloadError> {
    match lookup(fs, name) {
        None => Ok(None),
        Some(FieldData::Text(t)) => Ok(Some(t)),
        Some(_) => Err(PayloadError::WrongType),
    }
}

/// An optional list-of-text field: absent is `None`.
pub open spec fn opt_list_field(fs: Seq<(Seq<char>, FieldData)>, name: Seq<char>) -> Result<Option<Seq<Seq<char>>>, PayloadError> {
    match lookup(fs, name) {
        None => Ok(None),
        Some(FieldData::TextList(l)) => Ok(Some(l)),
        Some(_) => Err(PayloadError::WrongType),
    }
}

/// An optional time field: absent is `None`.
pub open spec fn opt_time_field(fs: Seq<(Seq<char>, FieldData)>, name: Seq<char>) -> Result<Option<Timestamp>, PayloadError> {
    match lookup(fs, name) {
        None => Ok(None),
        Some(FieldData::Time(t)) => Ok(Some(t)),
        Some(_) => Err(PayloadError::WrongType),
    }
}

/// An optional importance field: absent is `None`.
pub open spec fn opt_level_field(fs: Seq<(Seq<char>, FieldData)>, name: Seq<char>) -> Result<Option<Importance>, PayloadError> {
    match lookup(fs, name) {
        None => Ok(None),
        Some(FieldData::Level(i)) => Ok(Some(i)),
        Some(_) => Err(PayloadError::WrongType),
    }
}

/// Reads a creation payload from a record; the first field, in payload order,
/// that is absent or of the wrong kind decides the error.
pub open spec fn decode_create_spec(fs: Seq<(Seq<char>, FieldData)>) -> Result<CreateView, PayloadError> {
    match id_field(fs, "id"@) {
        Err(e) => Err(e),
        Ok(id) => match text_field(fs, "name"@) {
            Err(e) => Err(e),
            Ok(name) => match text_field(fs, "description"@) {
                Err(e) => Err(e),
                Ok(description) => match time_field(fs, "start_date"@) {
                    Err(e) => Err(e),
                    Ok(start_date) => match time_field(fs, "end_date"@) {
                        Err(e) => Err(e),
                        Ok(end_date) => match level_field(fs, "importance"@) {
                            Err(e) => Err(e),
                            Ok(importance) => match text_field(fs, "created_by_id"@) {
                                Err(e) => Err(e),
                                Ok(created_by_id) => match list_field(fs, "choices"@) {
                                    Err(e) => Err(e),
                                    Ok(choices) => Ok(CreateView {
                                        id,
                                        name,
                                        description,
                                        start_date,
                                        end_date,
                                        importance,
                                        created_by_id,
                                        choices,
                                    }),
                                },
                            },
                        },
                    },
                },
            },
        },
    }
}

/// Reads an update payload from a record: every field may be absent, and a
/// present field of the wrong kind is an error.
pub open spec fn decode_update_spec(fs: Seq<(Seq<char>, FieldData)>) -> Result<UpdateView, PayloadError> {
    match opt_text_field(fs, "name"@) {
        Err(e) => Err(e),
        Ok(name) => match opt_text_field(fs, "description"@) {
            Err(e) => Err(e),
            Ok(description) => match opt_time_field(fs, "start_date"@) {
                Err(e) => Err(e),
                Ok(start_date) => match opt_time_field(fs, "end_date"@) {
                    Err(e) => Err(e),
                    Ok(end_date) => match opt_level_field(fs, "importance"@) {
                        Err(e) => Err(e),
                        Ok(importance) => match opt_list_field(fs, "choices"@) {
                            Err(e) => Err(e),
                            Ok(choices) => Ok(UpdateView {
                                name,
                                description,
                                start_date,
                                end_date,
                                importance,
                                choices,
                            }),
                        },
                    },
                },
            },
        },
    }
}


/// Looking a name up after one more field is appended: an earlier field of
/// that name still wins.
pub proof fn lemma_lookup_push(fs: Seq<(Seq<char>, FieldData)>, p: (Seq<char>, FieldData))
    ensures
        forall|m: Seq<char>|
            #[trigger] lookup(fs.push(p), m) == match lookup(fs, m) {
                Some(v) => Some(v),
                None => if p.0 == m {
                    Some(p.1)
                } else {
                    None
                },
            },
    decreases fs.len(),
{
    if fs.len() == 0 {
        assert(fs.push(p).drop_first() =~= Seq::<(Seq<char>, FieldData)>::empty());
    } else {
        assert(fs.push(p).drop_first() =~= fs.drop_first().push(p));
        assert(fs.push(p)[0] == fs[0]);
        lemma_lookup_push(fs.drop_first(), p);
    }
    assert forall|m: Seq<char>|
        #[trigger] lookup(fs.push(p), m) == match lookup(fs, m) {
            Some(v) => Some(v),
            None => if p.0 == m {
                Some(p.1)
            } else {
                None
            },
        } by {
        if fs.len() == 0 {
            assert(lookup(fs.push(p).drop_first(), m) is None);
        }
    }
}

/// A field whose name no earlier field carries is the one found.
pub proof fn lemma_lookup_at(fs: Seq<(Seq<char>, FieldData)>, i: int)
    requires
        0 <= i < fs.len(),
        forall|j: int| 0 <= j < i ==> #[trigger] fs[j].0 != fs[i].0,
    ensures
        lookup(fs, fs[i].0) == Some(fs[i].1),
    decreases i,
{
    if i > 0 {
        let rest = fs.drop_first();
        assert(rest[i - 1] == fs[i]);
        assert forall|j: int| 0 <= j < i - 1 implies #[trigger] rest[j].0 != rest[i - 1].0 by {
            assert(rest[j] == fs[j + 1]);
        }
        lemma_lookup_at(rest, i - 1);
    }
}

/// Appends the field `name` to `fields` when `value` is present.
fn push_field(fields: &mut Vec<Field>, name: &str, value: Option<FieldValue>)
    ensures
        fields_view(final(fields)@) == push_present(fields_view(old(fields)@), name@, opt_data(value)),
{
    match value {
        Some(v) => {
            fields.push(Field { name: name.to_owned(), value: v });
            assert(fields_view(fields@) =~= fields_view(old(fields)@).push((name@, opt_data(value).unwrap())));
        },
        None => {},
    }
}

/// Encodes a creation payload: every field, in payload order.
pub fn encode_create(c: &CreateElectionEvent) -> (r: Record)
    ensures
        r@ == create_record(c@),
{
    let mut fields: Vec<Field> = Vec::new();
    push_field(&mut fields, "id", Some(FieldValue::Id(c.id)));
    push_field(&mut fields, "name", Some(FieldValue::Text(c.name.clone())));
    push_field(&mut fields, "description", Some(FieldValue::Text(c.description.clone())));
    push_field(&mut fields, "start_date", Some(FieldValue::Time(c.start_date)));
    push_field(&mut fields, "end_date", Some(FieldValue::Time(c.end_date)));
    push_field(&mut fields, "importance", Some(FieldValue::Level(c.importance)));
    push_field(&mut fields, "created_by_id", Some(FieldValue::Text(c.created_by_id.clone())));
    push_field(&mut fields, "choices", Some(FieldValue::TextList(copy_texts(&c.choices))));
    let r = Record { fields };
    assert(r@ =~= create_record(c@));
    r
}

/// Encodes an update payload: its present fields only.
pub fn encode_update(u: &UpdateElectionEvent) -> (r: Record)
    ensures
        r@ == update_record(u@),
{
    let mut fields: Vec<Field> = Vec::new();
    assert(fields_view(fields@) =~= Seq::<(Seq<char>, FieldData)>::empty());
    push_field(&mut fields, "name", match &u.name {
        Some(t) => Some(FieldValue::Text(t.clone())),
        None => None,
    });
    push_field(&mut fields, "description", match &u.description {
        Some(t) => Some(FieldValue::Text(t.clone())),
        None => None,
    });
    push_field(&mut fields, "start_date", match u.start_date {
        Some(t) => Some(FieldValue::Time(t)),
        None => None,
    });
    push_field(&mut fields, "end_date", match u.end_date {
        Some(t) => Some(FieldValue::Time(t)),
        None => None,
    });
    push_field(&mut fields, "importance", match u.importance {
        Some(i) => Some(FieldValue::Level(i)),
        None => None,
    });
    push_field(&mut fields, "choices", match &u.choices {
        Some(l) => Some(FieldValue::TextList(copy_texts(l))),
        None => None,
    });
    Record { fields }
}

/// The first field of `r` called `name`, if there is one.
pub fn find_field<'a>(r: &'a Record, name: &str) -> (res: Option<&'a FieldValue>)
    ensures
        res matches Some(v) ==> lookup(r@, name@) == Some(v@),
        res is None ==> lookup(r@, name@) is None,
{
    let wanted = name.to_owned();
    let mut i: usize = 0;
    assert(r@.subrange(0, r@.len() as int) =~= r@);
    while i < r.fields.len()
        invariant
            0 <= i <= r.fields@.len(),
            wanted@ == name@,
            lookup(r@, name@) == lookup(r@.subrange(i as int, r@.len() as int), name@),
        decreases r.fields@.len() - i,
    {
        let ghost sub = r@.subrange(i as int, r@.len() as int);
        assert(sub[0] == r@[i as int]);
        if r.fields[i].name == wanted {
            return Some(&r.fields[i].value);
        }
        assert(sub.drop_first() =~= r@.subrange(i + 1, r@.len() as int));
        i += 1;
    }
    assert(r@.subrange(i as int, r@.len() as int).len() == 0);
    None
}

fn text_at(r: &Record, name: &str) -> (res: Result<String, PayloadError>)
    ensures
        res matches Ok(s) ==> text_field(r@, name@) == Ok::<Seq<char>, PayloadError>(s@),
        res matches Err(e) ==> text_field(r@, name@) == Err::<Seq<char>, PayloadError>(e),
{
    match find_field(r, name) {
        Some(FieldValue::Text(t)) => Ok(t.clone()),
        Some(_) => Err(PayloadError::WrongType),
        None => Err(PayloadError::MissingField),
    }
}

fn list_at(r: &Record, name: &str) -> (res: Result<Vec<String>, PayloadError>)
    ensures
        res matches Ok(l) ==> list_field(r@, name@) == Ok::<Seq<Seq<char>>, PayloadError>(texts(l@)),
        res matches Err(e) ==> list_field(r@, name@) == Err::<Seq<Seq<char>>, PayloadError>(e),
{
    match find_field(r, name) {
        Some(FieldValue::TextList(l)) => Ok(copy_texts(l)),
        Some(_) => Err(PayloadError::WrongType),
        None => Err(PayloadError::MissingField),
    }
}

fn time_at(r: &Record, name: &str) -> (res: Result<Timestamp, PayloadError>)
    ensures
        res == time_field(r@, name@),
{
    match find_field(r, name) {
        Some(FieldValue::Time(t)) => Ok(*t),
        Some(_) => Err(PayloadError::WrongType),
        None => Err(PayloadError::MissingField),
    }
}

fn level_at(r: &Record, name: &str) -> (res: Result<Importance, PayloadError>)
    ensures
        res == level_field(r@, name@),
{
    match find_field(r, name) {
        Some(FieldValue::Level(i)) => Ok(*i),
        Some(_) => Err(PayloadError::WrongType),
        None => Err(PayloadError::MissingField),
    }
}

fn id_at(r: &Record, name: &str) -> (res: Result<u128, PayloadError>)
    ensures
        res == id_field(r@, name@),
{
    match find_field(r, name) {
        Some(FieldValue::Id(n)) => Ok(*n),
        Some(_) => Err(PayloadError::WrongType),
        None => Err(PayloadError::MissingField),
    }
}

fn opt_text_at(r: &Record, name: &str) -> (res: Result<Option<String>, PayloadError>)
    ensures
        res matches Ok(o) ==> opt_text_field(r@, name@) == Ok::<Option<Seq<char>>, PayloadError>(opt_text(o)),
        res matches Err(e) ==> opt_text_field(r@, name@) == Err::<Option<Seq<char>>, PayloadError>(e),
{
    match find_field(r, name) {
        Some(FieldValue::Text(t)) => Ok(Some(t.clone())),
        Some(_) => Err(PayloadError::WrongType),
        None => Ok(None),
    }
}

fn opt_list_at(r: &Record, name: &str) -> (res: Result<Option<Vec<String>>, PayloadError>)
    ensures
        res matches Ok(o) ==> opt_list_field(r@, name@) == Ok::<Option<Seq<Seq<char>>>, PayloadError>(opt_texts(o)),
        res matches Err(e) ==> opt_list_field(r@, name@) == Err::<Option<Seq<Seq<char>>>, PayloadError>(e),
{
    match find_field(r, name) {
        Some(FieldValue::TextList(l)) => Ok(Some(copy_texts(l))),
        Some(_) => Err(PayloadError::WrongType),
        None => Ok(None),
    }
}

fn opt_time_at(r: &Record, name: &str) -> (res: Result<Option<Timestamp>, PayloadError>)
    ensures
        res == opt_time_field(r@, name@),
{
    match find_field(r, name) {
        Some(FieldValue::Time(t)) => Ok(Some(*t)),
        Some(_) => Err(PayloadError::WrongType),
        None => Ok(None),
    }
}

fn opt_level_at(r: &Record, name: &str) -> (res: Result<Option<Importance>, PayloadError>)
    ensures
        res == opt_level_field(r@, name@),
{
    match find_field(r, name) {
        Some(FieldValue::Level(i)) => Ok(Some(*i)),
        Some(_) => Err(PayloadError::WrongType),
        None => Ok(None),
    }
}

/// The view of a decoded creation payload.
pub open spec fn create_result(r: Result<CreateElectionEvent, PayloadError>) -> Result<CreateView, PayloadError> {
    match r {
        Ok(c) => Ok(c@),
        Err(e) => Err(e),
    }
}

/// The view of a decoded update payload.
pub open spec fn update_result(r: Result<UpdateElectionEvent, PayloadError>) -> Result<UpdateView, PayloadError> {
    match r {
        Ok(u) => Ok(u@),
        Err(e) => Err(e),
    }
}

/// Reads a creation payload from a record.
pub fn decode_create(r: &Record) -> (res: Result<CreateElectionEvent, PayloadError>)
    ensures
        create_result(res) == decode_create_spec(r@),
{
    let id = match id_at(r, "id") {
        Ok(v) => v,
        Err(e) => return Err(e),
    };
    let name = match text_at(r, "name") {
        Ok(v) => v,
        Err(e) => return Err(e),
    };
    let description = match text_at(r, "description") {
        Ok(v) => v,
        Err(e) => return Err(e),
    };
    let start_date = match time_at(r, "start_date") {
        Ok(v) => v,
        Err(e) => return Err(e),
    };
    let end_date = match time_at(r, "end_date") {
        Ok(v) => v,
        Err(e) => return Err(e),
    };
    let importance = match level_at(r, "importance") {
        Ok(v) => v,
        Err(e) => return Err(e),
    };
    let created_by_id = match text_at(r, "created_by_id") {
        Ok(v) => v,
        Err(e) => return Err(e),
    };
    let choices = match list_at(r, "choices") {
        Ok(v) => v,
        Err(e) => return Err(e),
    };
    Ok(CreateElectionEvent { id, name, description, start_date, end_date, importance, created_by_id, choices })
}

/// Reads an update payload from a record.
pub fn decode_update(r: &Record) -> (res: Result<UpdateElectionEvent, PayloadError>)
    ensures
        update_result(res) == decode_update_spec(r@),
{
    let name = match opt_text_at(r, "name") {
        Ok(v) => v,
        Err(e) => return Err(e),
    };
    let description = match opt_text_at(r, "description") {
        Ok(v) => v,
        Err(e) => return Err(e),
    };
    let start_date = match opt_time_at(r, "start_date") {
        Ok(v) => v,
        Err(e) => return Err(e),
    };
    let end_date = match opt_time_at(r, "end_date") {
        Ok(v) => v,
        Err(e) => return Err(e),
    };
    let importance = match opt_level_at(r, "importance") {
        Ok(v) => v,
        Err(e) => return Err(e),
    };
    let choices = match opt_list_at(r, "choices") {
        Ok(v) => v,
        Err(e) => return Err(e),
    };
    Ok(UpdateElectionEvent { name, description, start_date, end_date, importance, choices })
}


/// A record that neither payload kind can be read from: it holds a `name`
/// field of a kind no payload accepts there. A store that cannot read a stored
/// payload hands this on, so that the fold decides what the failure means.
pub fn unreadable_payload() -> (r: Record)
    ensures
        decode_create_spec(r@) is Err,
        decode_update_spec(r@) is Err,
{
    let mut fields: Vec<Field> = Vec::new();
    push_field(&mut fields, "name", Some(FieldValue::Id(0)));
    let r = Record { fields };
    proof {
        let fs = r@;
        lemma_lookup_at(fs, 0);
        reveal_strlit("id");
        reveal_strlit("name");
        assert("id"@.len() != "name"@.len());
        assert(lookup(fs.drop_first(), "id"@) is None);
    }
    r
}

/// The field names of the payloads are pairwise distinct.
proof fn lemma_field_names_distinct()
    ensures
        "id"@ != "name"@, "id"@ != "description"@, "id"@ != "start_date"@, "id"@ != "end_date"@,
        "id"@ != "importance"@, "id"@ != "created_by_id"@, "id"@ != "choices"@,
        "name"@ != "description"@, "name"@ != "start_date"@, "name"@ != "end_date"@,
        "name"@ != "importance"@, "name"@ != "created_by_id"@, "name"@ != "choices"@,
        "description"@ != "start_date"@, "description"@ != "end_date"@,
        "description"@ != "importance"@, "description"@ != "created_by_id"@, "description"@ != "choices"@,
        "start_date"@ != "end_date"@, "start_date"@ != "importance"@,
        "start_date"@ != "created_by_id"@, "start_date"@ != "choices"@,
        "end_date"@ != "importance"@, "end_date"@ != "created_by_id"@, "end_date"@ != "choices"@,
        "importance"@ != "created_by_id"@, "importance"@ != "choices"@,
        "created_by_id"@ != "choices"@,
{
    reveal_strlit("id");
    reveal_strlit("name");
    reveal_strlit("description");
    reveal_strlit("start_date");
    reveal_strlit("end_date");
    reveal_strlit("importance");
    reveal_strlit("created_by_id");
    reveal_strlit("choices");
    assert("id"@.len() == 2);
    assert("name"@.len() == 4);
    assert("description"@.len() == 11);
    assert("start_date"@.len() == 10);
    assert("end_date"@.len() == 8);
    assert("importance"@.len() == 10);
    assert("created_by_id"@.len() == 13);
    assert("choices"@.len() == 7);
    assert("start_date"@[0] != "importance"@[0]);
}

/// Decoding the record of a creation payload gives the payload back.
pub proof fn lemma_create_round_trip(c: CreateView)
    ensures
        decode_create_spec(create_record(c)) == Ok::<CreateView, PayloadError>(c),
{
    lemma_field_names_distinct();
    let fs = create_record(c);
    lemma_lookup_at(fs, 0);
    lemma_lookup_at(fs, 1);
    lemma_lookup_at(fs, 2);
    lemma_lookup_at(fs, 3);
    lemma_lookup_at(fs, 4);
    lemma_lookup_at(fs, 5);
    lemma_lookup_at(fs, 6);
    lemma_lookup_at(fs, 7);
}

/// Decoding the record of an update payload gives the payload back: a field
/// left absent stays absent and a present one, even empty, stays present.
pub proof fn lemma_update_round_trip(u: UpdateView)
    ensures
        decode_update_spec(update_record(u)) == Ok::<UpdateView, PayloadError>(u),
{
    lemma_field_names_distinct();
    let s0 = Seq::<(Seq<char>, FieldData)>::empty();
    let v1 = match u.name { Some(t) => Some(FieldData::Text(t)), None => None };
    let v2 = match u.description { Some(t) => Some(FieldData::Text(t)), None => None };
    let v3 = match u.start_date { Some(t) => Some(FieldData::Time(t)), None => None };
    let v4 = match u.end_date { Some(t) => Some(FieldData::Time(t)), None => None };
    let v5 = match u.importance { Some(i) => Some(FieldData::Level(i)), None => None };
    let v6 = match u.choices { Some(l) => Some(FieldData::TextList(l)), None => None };
    let s1 = push_present(s0, "name"@, v1);
    let s2 = push_present(s1, "description"@, v2);
    let s3 = push_present(s2, "start_date"@, v3);
    let s4 = push_present(s3, "end_date"@, v4);
    let s5 = push_present(s4, "importance"@, v5);
    let s6 = push_present(s5, "choices"@, v6);
    assert forall|m: Seq<char>| #[trigger] lookup(s0, m) is None by {}
    if v1 is Some { lemma_lookup_push(s0, ("name"@, v1.unwrap())); }
    if v2 is Some { lemma_lookup_push(s1, ("description"@, v2.unwrap())); }
    if v3 is Some { lemma_lookup_push(s2, ("start_date"@, v3.unwrap())); }
    if v4 is Some { lemma_lookup_push(s3, ("end_date"@, v4.unwrap())); }
    if v5 is Some { lemma_lookup_push(s4, ("importance"@, v5.unwrap())); }
    if v6 is Some { lemma_lookup_push(s5, ("choices"@, v6.unwrap())); }
    assert(lookup(s6, "name"@) == v1);
    assert(lookup(s6, "description"@) == v2);
    assert(lookup(s6, "start_date"@) == v3);
    assert(lookup(s6, "end_date"@) == v4);
    assert(lookup(s6, "importance"@) == v5);
    assert(lookup(s6, "choices"@) == v6);
    assert(s6 == update_record(u));
}

} // verus!
