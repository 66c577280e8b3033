//! Construction of request bodies.
//!
//! Every call sends one JSON object.  Its mandatory fields are always
//! present; an optional field is present exactly when the caller gave a
//! value for it, and is otherwise left out altogether, so that the server
//! applies its own default.  Values are passed on as given: the server is
//! the one to validate them.

use vstd::prelude::*;
use vstd::string::StringExecFns;
use crate::json::json_text;

verus! {

/// The value of one field of a request body.
#[derive(Debug, Clone)]
pub enum FieldValue {
    Text(String),
    Number(u32),
    Flag(bool),
    TextList(Vec<String>),
    /// A JSON value passed through unchanged.
    Json(serde_json::Value),
}

/// The mathematical value of a field.  A JSON value stands by its text.
pub enum FieldModel {
    Text(Seq<char>),
    Number(u32),
    Flag(bool),
    TextList(Seq<Seq<char>>),
    Json(Seq<char>),
}

pub open spec fn texts_view(list: Seq<String>) -> Seq<Seq<char>> {
    list.map_values(|s: String| s@)
}

impl View for FieldValue {
    type V = FieldModel;

    open spec fn view(&self) -> FieldModel {
        match *self {
            FieldValue::Text(s) => FieldModel::Text(s@),
            FieldValue::Number(n) => FieldModel::Number(n),
            FieldValue::Flag(b) => FieldModel::Flag(b),
            FieldValue::TextList(list) => FieldModel::TextList(texts_view(list@)),
            FieldValue::Json(v) => FieldModel::Json(json_text(v)),
        }
    }
}

/// The object that a sequence of assignments builds: each one sets its
/// field, a later one replacing an earlier one of the same name.
pub open spec fn entries_map(entries: Seq<(String, FieldValue)>) -> Map<Seq<char>, FieldModel>
    decreases entries.len(),
{
    if entries.len() == 0 {
        Map::empty()
    } else {
        entries_map(entries.drop_last()).insert(entries.last().0@, entries.last().1@)
    }
}

/// `m` with the field `name` set where a value is given, and `m` itself
/// where none is.
pub open spec fn overlay(
    m: Map<Seq<char>, FieldModel>,
    name: Seq<char>,
    value: Option<FieldModel>,
) -> Map<Seq<char>, FieldModel> {
    match value {
        Some(v) => m.insert(name, v),
        None => m,
    }
}

pub open spec fn opt_view(value: Option<FieldValue>) -> Option<FieldModel> {
    match value {
        Some(v) => Some(v@),
        None => None,
    }
}

pub open spec fn opt_text(value: Option<&str>) -> Option<FieldModel> {
    match value {
        Some(s) => Some(FieldModel::Text(s@)),
        None => None,
    }
}

pub open spec fn opt_number(value: Option<u32>) -> Option<FieldModel> {
    match value {
        Some(n) => Some(FieldModel::Number(n)),
        None => None,
    }
}

pub open spec fn opt_flag(value: Option<bool>) -> Option<FieldModel> {
    match value {
        Some(b) => Some(FieldModel::Flag(b)),
        None => None,
    }
}

pub open spec fn opt_list(value: Option<Vec<String>>) -> Option<FieldModel> {
    match value {
        Some(list) => Some(FieldModel::TextList(texts_view(list@))),
        None => None,
    }
}

pub open spec fn opt_json(value: Option<serde_json::Value>) -> Option<FieldModel> {
    match value {
        Some(v) => Some(FieldModel::Json(json_text(v))),
        None => None,
    }
}

/// `m` after every optional field of `optional` has been overlaid, in order.
pub open spec fn overlay_all(
    m: Map<Seq<char>, FieldModel>,
    optional: Seq<(String, Option<FieldValue>)>,
) -> Map<Seq<char>, FieldModel>
    decreases optional.len(),
{
    if optional.len() == 0 {
        m
    } else {
        overlay(
            overlay_all(m, optional.drop_last()),
            optional.last().0@,
            opt_view(optional.last().1),
        )
    }
}

/// The names of the given fields.
pub open spec fn field_names(entries: Seq<(String, FieldValue)>) -> Set<Seq<char>> {
    Set::new(|name: Seq<char>| exists|i: int| 0 <= i < entries.len() && entries[i].0@ == name)
}

/// The names of the optional fields that carry a value.
pub open spec fn given_names(optional: Seq<(String, Option<FieldValue>)>) -> Set<Seq<char>> {
    Set::new(
        |name: Seq<char>|
            exists|i: int|
                0 <= i < optional.len() && optional[i].0@ == name && optional[i].1 is Some,
    )
}

/// The JSON object sent with a request, as a list of assignments.
#[derive(Debug, Clone)]
pub struct RequestBody {
    fields: Vec<(String, FieldValue)>,
}

impl View for RequestBody {
    type V = Map<Seq<char>, FieldModel>;

    closed spec fn view(&self) -> Map<Seq<char>, FieldModel> {
        entries_map(self.fields@)
    }
}

impl RequestBody {
    /// The empty object.
    pub fn new() -> (body: Self)
        ensures
            body@ == Map::<Seq<char>, FieldModel>::empty(),
    {
        RequestBody { fields: Vec::new() }
    }

    /// Sets a field.
    pub fn set(&mut self, name: &str, value: FieldValue)
        ensures
            final(self)@ == old(self)@.insert(name@, value@),
    {
        let ghost before = self.fields@;
        self.fields.push((String::from_str(name), value));
        proof {
            assert(self.fields@.drop_last() =~= before);
        }
    }

    /// Sets a field where a value is given, and leaves the body as it is
    /// where none is: an absent field is not sent as `null`.
    pub fn set_optional(&mut self, name: &str, value: Option<FieldValue>)
        ensures
            final(self)@ == overlay(old(self)@, name@, opt_view(value)),
    {
        match value {
            Some(v) => self.set(name, v),
            None => {},
        }
    }

    pub fn set_text(&mut self, name: &str, value: &str)
        ensures
            final(self)@ == old(self)@.insert(name@, FieldModel::Text(value@)),
    {
        self.set(name, FieldValue::Text(String::from_str(value)));
    }

    pub fn set_flag(&mut self, name: &str, value: bool)
        ensures
            final(self)@ == old(self)@.insert(name@, FieldModel::Flag(value)),
    {
        self.set(name, FieldValue::Flag(value));
    }

    pub fn set_number(&mut self, name: &str, value: u32)
        ensures
            final(self)@ == old(self)@.insert(name@, FieldModel::Number(value)),
    {
        self.set(name, FieldValue::Number(value));
    }

    pub fn set_optional_text(&mut self, name: &str, value: Option<&str>)
        ensures
            final(self)@ == overlay(old(self)@, name@, opt_text(value)),
    {
        match value {
            Some(s) => self.set_text(name, s),
            None => {},
        }
    }

    pub fn set_optional_number(&mut self, name: &str, value: Option<u32>)
        ensures
            final(self)@ == overlay(old(self)@, name@, opt_number(value)),
    {
        match value {
            Some(n) => self.set_number(name, n),
            None => {},
        }
    }

    pub fn set_optional_flag(&mut self, name: &str, value: Option<bool>)
        ensures
            final(self)@ == overlay(old(self)@, name@, opt_flag(value)),
    {
        match value {
            Some(b) => self.set_flag(name, b),
            None => {},
        }
    }

    pub fn set_optional_list(&mut self, name: &str, value: Option<Vec<String>>)
        ensures
            final(self)@ == overlay(old(self)@, name@, opt_list(value)),
    {
        match value {
            Some(list) => self.set(name, FieldValue::TextList(list)),
            None => {},
        }
    }

    pub fn set_optional_json(&mut self, name: &str, value: Option<serde_json::Value>)
        ensures
            final(self)@ == overlay(old(self)@, name@, opt_json(value)),
    {
        match value {
            Some(v) => self.set(name, FieldValue::Json(v)),
            None => {},
        }
    }

    /// The value of a field, if the body has it.
    pub fn get(&self, name: &str) -> (found: Option<&FieldValue>)
        ensures
            match found {
                Some(value) => self@.contains_key(name@) && self@[name@] == value@,
                None => !self@.contains_key(name@),
            },
    {
        let wanted = String::from_str(name);
        let mut i: usize = self.fields.len();
        while i > 0
            invariant
                i <= self.fields.len(),
                wanted@ == name@,
                forall|j: int| i <= j < self.fields.len() ==> (#[trigger] self.fields@[j]).0@ != name@,
            decreases i,
        {
            i = i - 1;
            if self.fields[i].0 == wanted {
                proof {
                    lemma_last_assignment_wins(self.fields@, name@, i as int);
                }
                return Some(&self.fields[i].1);
            }
        }
        proof {
            lemma_entries_keys(self.fields@);
            if field_names(self.fields@).contains(name@) {
                let j = choose|j: int| 0 <= j < self.fields@.len() && self.fields@[j].0@ == name@;
                assert(self.fields@[j].0@ == name@);
            }
        }
        None
    }

    /// Number of assignments made.
    pub fn len(&self) -> (n: usize)
        ensures
            n == self.entries().len(),
    {
        self.fields.len()
    }

    /// The assignments made, oldest first.
    pub closed spec fn entries(&self) -> Seq<(String, FieldValue)> {
        self.fields@
    }

    /// The assignments together make the body.
    pub proof fn lemma_entries(&self)
        ensures
            self@ == entries_map(self.entries()),
    {
    }

    /// The assignments made, oldest first.  Replaying them in order on an
    /// empty object gives the body.
    pub fn into_entries(self) -> (entries: Vec<(String, FieldValue)>)
        ensures
            entries@ == self.entries(),
            entries_map(entries@) == self@,
    {
        self.fields
    }
}

/// Builds a body from its mandatory fields and an overlay of optional ones.
pub fn build_body(
    mandatory: Vec<(String, FieldValue)>,
    optional: Vec<(String, Option<FieldValue>)>,
) -> (body: RequestBody)
    ensures
        body@ == overlay_all(entries_map(mandatory@), optional@),
        body@.dom() == field_names(mandatory@).union(given_names(optional@)),
{
    let ghost all = optional@;
    let mut body = RequestBody { fields: mandatory };
    proof {
        assert(all.take(0) =~= Seq::empty());
    }
    for entry in it: optional
        invariant
            it.seq() == all,
            body@ == overlay_all(entries_map(mandatory@), all.take(it.index() as int)),
    {
        let ghost k = it.index() as int;
        proof {
            assert(all.take(k + 1).drop_last() =~= all.take(k));
            assert(all.take(k + 1).last() == entry);
        }
        let (name, value) = entry;
        body.set_optional(name.as_str(), value);
    }
    proof {
        assert(all.take(all.len() as int) =~= all);
        lemma_body_keys(mandatory@, all);
    }
    body
}

/// The keys of an object built from assignments are the names assigned.
pub proof fn lemma_entries_keys(entries: Seq<(String, FieldValue)>)
    ensures
        entries_map(entries).dom() == field_names(entries),
    decreases entries.len(),
{
    if entries.len() > 0 {
        let front = entries.drop_last();
        lemma_entries_keys(front);
        assert forall|name: Seq<char>| field_names(entries).contains(name) implies entries_map(
            entries,
        ).dom().contains(name) by {
            let i = choose|i: int| 0 <= i < entries.len() && entries[i].0@ == name;
            if i < front.len() {
                assert(front[i].0@ == name);
            }
        }
        assert forall|name: Seq<char>| entries_map(entries).dom().contains(
            name,
        ) implies field_names(entries).contains(name) by {
            if name == entries.last().0@ {
                assert(entries[entries.len() - 1].0@ == name);
            } else {
                let i = choose|i: int| 0 <= i < front.len() && front[i].0@ == name;
                assert(entries[i].0@ == name);
            }
        }
    }
    assert(entries_map(entries).dom() =~= field_names(entries));
}

/// A field holds the value of the last assignment made to it.
pub proof fn lemma_last_assignment_wins(entries: Seq<(String, FieldValue)>, name: Seq<char>, i: int)
    requires
        0 <= i < entries.len(),
        entries[i].0@ == name,
        forall|j: int| i < j < entries.len() ==> (#[trigger] entries[j]).0@ != name,
    ensures
        entries_map(entries).contains_key(name),
        entries_map(entries)[name] == entries[i].1@,
    decreases entries.len(),
{
    if i < entries.len() - 1 {
        let front = entries.drop_last();
        assert(entries.last() == entries[entries.len() - 1]);
        assert forall|j: int| i < j < front.len() implies (#[trigger] front[j]).0@ != name by {
            assert(front[j] == entries[j]);
        }
        lemma_last_assignment_wins(front, name, i);
    }
}

/// The keys of a body are its mandatory fields together with exactly those
/// optional fields for which a value was given; an optional field without a
/// value is a key only if one of those has the same name.
pub proof fn lemma_body_keys(
    mandatory: Seq<(String, FieldValue)>,
    optional: Seq<(String, Option<FieldValue>)>,
)
    ensures
        overlay_all(entries_map(mandatory), optional).dom() == field_names(mandatory).union(
            given_names(optional),
        ),
    decreases optional.len(),
{
    let keys = overlay_all(entries_map(mandatory), optional).dom();
    let named = field_names(mandatory).union(given_names(optional));
    if optional.len() == 0 {
        lemma_entries_keys(mandatory);
    } else {
        let front = optional.drop_last();
        lemma_body_keys(mandatory, front);
        assert forall|name: Seq<char>| named.contains(name) implies keys.contains(name) by {
            if !field_names(mandatory).contains(name) {
                let i = choose|i: int|
                    0 <= i < optional.len() && optional[i].0@ == name && optional[i].1 is Some;
                if i < front.len() {
                    assert(front[i].0@ == name && front[i].1 is Some);
                    assert(given_names(front).contains(name));
                }
            }
        }
        assert forall|name: Seq<char>| keys.contains(name) implies named.contains(name) by {
            if optional.last().1 is Some && name == optional.last().0@ {
                let last = optional.len() - 1;
                assert(optional[last].0@ == name && optional[last].1 is Some);
            } else {
                if !field_names(mandatory).contains(name) {
                    assert(given_names(front).contains(name));
                    let i = choose|i: int|
                        0 <= i < front.len() && front[i].0@ == name && front[i].1 is Some;
                    assert(optional[i].0@ == name && optional[i].1 is Some);
                }
            }
        }
    }
    assert(keys =~= named);
}

} // verus!
