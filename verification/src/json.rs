//! JSON values, their fields and their parser.
use crate::assoc::{self, lookup};
use crate::base::{Duplicate, Same};
use crate::text;
use vstd::prelude::*;
use vstd::string::*;

verus! {

/// A JSON number: its text, and its value where it is an unsigned integer of
/// at most 64 bits.
#[derive(Debug, PartialEq)]
pub struct JsonNumber {
    pub text: String,
    pub as_u64: Option<u64>,
}

/// A JSON value. The fields of an object stand in the order in which they are
/// listed.
#[derive(Debug, PartialEq)]
pub enum Json {
    Null,
    Bool(bool),
    Number(JsonNumber),
    Text(String),
    Array(Vec<Json>),
    Object(Vec<(String, Json)>),
}

/// What a JSON value is, with sequences in place of strings and lists.
pub enum JsonView {
    Null,
    Bool(bool),
    Number { text: Seq<char>, as_u64: Option<u64> },
    Text(Seq<char>),
    Array(Seq<JsonView>),
    Object(Seq<(Seq<char>, JsonView)>),
}

pub open spec fn json_view(j: Json) -> JsonView
    decreases j,
{
    match j {
        Json::Null => JsonView::Null,
        Json::Bool(b) => JsonView::Bool(b),
        Json::Number(n) => JsonView::Number { text: n.text@, as_u64: n.as_u64 },
        Json::Text(s) => JsonView::Text(s@),
        Json::Array(items) => JsonView::Array(
            Seq::new(
                items@.len(),
                |i: int|
                    if 0 <= i < items@.len() {
                        json_view(items@[i])
                    } else {
                        JsonView::Null
                    },
            ),
        ),
        Json::Object(fields) => JsonView::Object(
            Seq::new(
                fields@.len(),
                |i: int|
                    if 0 <= i < fields@.len() {
                        (fields@[i].0@, json_view(fields@[i].1))
                    } else {
                        (Seq::<char>::empty(), JsonView::Null)
                    },
            ),
        ),
    }
}

impl DeepView for Json {
    type V = JsonView;

    open spec fn deep_view(&self) -> JsonView {
        json_view(*self)
    }
}

/// The view of an array, through the views of its items.
pub proof fn lemma_array_view(items: Vec<Json>)
    ensures
        json_view(Json::Array(items)) == JsonView::Array(items.deep_view()),
{
    assert(json_view(Json::Array(items))->Array_0 =~= items.deep_view());
}

/// The view of an object, through the views of its fields.
pub proof fn lemma_object_view(fields: Vec<(String, Json)>)
    ensures
        json_view(Json::Object(fields)) == JsonView::Object(fields.deep_view()),
{
    assert(json_view(Json::Object(fields))->Object_0 =~= fields.deep_view());
}

/// A copy of the items of an array.
fn duplicate_items(items: &Vec<Json>) -> (r: Vec<Json>)
    ensures
        r.deep_view() == items.deep_view(),
    decreases *items,
{
    let mut out: Vec<Json> = Vec::new();
    let mut i: usize = 0;
    while i < items.len()
        invariant
            i <= items@.len(),
            out@.len() == i,
            forall|k: int| 0 <= k < i ==> json_view(#[trigger] out@[k]) == json_view(items@[k]),
        decreases items@.len() - i,
    {
        out.push(duplicate_json(&items[i]));
        i = i + 1;
    }
    assert(out.deep_view() =~= items.deep_view());
    out
}

/// A copy of a JSON value.
pub fn duplicate_json(j: &Json) -> (r: Json)
    ensures
        json_view(r) == json_view(*j),
    decreases *j,
{
    match j {
        Json::Null => Json::Null,
        Json::Bool(b) => Json::Bool(*b),
        Json::Number(n) => Json::Number(JsonNumber { text: n.text.clone(), as_u64: n.as_u64 }),
        Json::Text(s) => Json::Text(s.clone()),
        Json::Array(items) => {
            let out = duplicate_items(items);
            proof {
                lemma_array_view(*items);
                lemma_array_view(out);
            }
            Json::Array(out)
        },
        Json::Object(fields) => {
            let out = duplicate_fields(fields);
            proof {
                lemma_object_view(*fields);
                lemma_object_view(out);
            }
            Json::Object(out)
        },
    }
}

/// A copy of the fields of an object.
pub fn duplicate_fields(fields: &Vec<(String, Json)>) -> (r: Vec<(String, Json)>)
    ensures
        r.deep_view() == fields.deep_view(),
    decreases *fields,
{
    let mut out: Vec<(String, Json)> = Vec::new();
    let mut i: usize = 0;
    while i < fields.len()
        invariant
            i <= fields@.len(),
            out@.len() == i,
            forall|k: int|
                0 <= k < i ==> (#[trigger] out@[k]).0@ == fields@[k].0@ && json_view(out@[k].1)
                    == json_view(fields@[k].1),
        decreases fields@.len() - i,
    {
        out.push((fields[i].0.clone(), duplicate_json(&fields[i].1)));
        i = i + 1;
    }
    assert(out.deep_view() =~= fields.deep_view());
    out
}

impl Duplicate for Json {
    fn duplicate(&self) -> (r: Self) {
        duplicate_json(self)
    }
}

/// Whether two arrays hold the same items.
fn same_items(a: &Vec<Json>, b: &Vec<Json>) -> (r: bool)
    ensures
        r == (a.deep_view() == b.deep_view()),
    decreases *a,
{
    if a.len() != b.len() {
        assert(a.deep_view().len() != b.deep_view().len());
        return false;
    }
    let mut i: usize = 0;
    while i < a.len()
        invariant
            i <= a@.len(),
            a@.len() == b@.len(),
            forall|j: int| 0 <= j < i ==> a@[j].deep_view() == b@[j].deep_view(),
        decreases a@.len() - i,
    {
        if !same_json(&a[i], &b[i]) {
            assert(a.deep_view()[i as int] != b.deep_view()[i as int]);
            return false;
        }
        i = i + 1;
    }
    assert(a.deep_view() =~= b.deep_view());
    true
}

/// Whether two objects hold the same fields in the same order.
fn same_fields(a: &Vec<(String, Json)>, b: &Vec<(String, Json)>) -> (r: bool)
    ensures
        r == (a.deep_view() == b.deep_view()),
    decreases *a,
{
    if a.len() != b.len() {
        assert(a.deep_view().len() != b.deep_view().len());
        return false;
    }
    let mut i: usize = 0;
    while i < a.len()
        invariant
            i <= a@.len(),
            a@.len() == b@.len(),
            forall|j: int| 0 <= j < i ==> a@[j].deep_view() == b@[j].deep_view(),
        decreases a@.len() - i,
    {
        if !text::str_eq(&a[i].0, &b[i].0) || !same_json(&a[i].1, &b[i].1) {
            assert(a.deep_view()[i as int] != b.deep_view()[i as int]);
            return false;
        }
        i = i + 1;
    }
    assert(a.deep_view() =~= b.deep_view());
    true
}

/// Whether two JSON values are the same.
pub fn same_json(a: &Json, b: &Json) -> (r: bool)
    ensures
        r == (json_view(*a) == json_view(*b)),
    decreases *a,
{
    match (a, b) {
        (Json::Null, Json::Null) => true,
        (Json::Bool(x), Json::Bool(y)) => *x == *y,
        (Json::Number(x), Json::Number(y)) => {
            let same_value = match (x.as_u64, y.as_u64) {
                (Some(m), Some(n)) => m == n,
                (None, None) => true,
                _ => false,
            };
            same_value && text::str_eq(&x.text, &y.text)
        },
        (Json::Text(x), Json::Text(y)) => text::str_eq(x, y),
        (Json::Array(x), Json::Array(y)) => {
            proof {
                lemma_array_view(*x);
                lemma_array_view(*y);
            }
            same_items(x, y)
        },
        (Json::Object(x), Json::Object(y)) => {
            proof {
                lemma_object_view(*x);
                lemma_object_view(*y);
            }
            same_fields(x, y)
        },
        _ => false,
    }
}

impl Same for Json {
    fn same(&self, other: &Self) -> (r: bool) {
        same_json(self, other)
    }
}

/// A JSON text.
pub fn text_value(s: &str) -> (r: Json)
    ensures
        r.deep_view() == JsonView::Text(s@),
{
    Json::Text(text::owned(s))
}

/// A JSON array.
pub fn array_value(items: Vec<Json>) -> (r: Json)
    ensures
        r.deep_view() == JsonView::Array(items.deep_view()),
{
    proof {
        lemma_array_view(items);
    }
    Json::Array(items)
}

/// A JSON object.
pub fn object_value(fields: Vec<(String, Json)>) -> (r: Json)
    ensures
        r.deep_view() == JsonView::Object(fields.deep_view()),
{
    proof {
        lemma_object_view(fields);
    }
    Json::Object(fields)
}

/// Adds a field to those of an object.
pub fn add_field(fields: &mut Vec<(String, Json)>, name: &str, value: Json)
    ensures
        final(fields).deep_view() == old(fields).deep_view().push((name@, value.deep_view())),
{
    crate::base::push(fields, (text::owned(name), value));
}

/// The fields of the schema of one parameter: its type and what it is.
pub open spec fn parameter_schema(kind: Seq<char>, description: Seq<char>) -> JsonView {
    JsonView::Object(
        seq![
            ("type"@, JsonView::Text(kind)),
            ("description"@, JsonView::Text(description)),
        ],
    )
}

/// The schema of one parameter: its type and what it is.
pub fn parameter(kind: &str, description: &str) -> (r: Json)
    ensures
        r.deep_view() == parameter_schema(kind@, description@),
{
    let mut f: Vec<(String, Json)> = Vec::new();
    add_field(&mut f, "type", text_value(kind));
    add_field(&mut f, "description", text_value(description));
    assert(f.deep_view() =~= seq![
        ("type"@, JsonView::Text(kind@)),
        ("description"@, JsonView::Text(description@)),
    ]);
    object_value(f)
}

impl JsonView {
    /// The value of the field `name` of an object.
    pub open spec fn field(self, name: Seq<char>) -> Option<JsonView> {
        match self {
            JsonView::Object(fields) => lookup(fields, name),
            _ => None,
        }
    }

    /// The text, of a text.
    pub open spec fn text(self) -> Option<Seq<char>> {
        match self {
            JsonView::Text(s) => Some(s),
            _ => None,
        }
    }

    /// The items, of an array.
    pub open spec fn items(self) -> Option<Seq<JsonView>> {
        match self {
            JsonView::Array(items) => Some(items),
            _ => None,
        }
    }

    /// The text of the field `name`, where it is a text.
    pub open spec fn text_field(self, name: Seq<char>) -> Option<Seq<char>> {
        match self.field(name) {
            Some(v) => v.text(),
            None => None,
        }
    }
}

impl Json {
    /// The value of the field `name` of an object.
    pub fn get(&self, name: &str) -> (r: Option<&Json>)
        ensures
            match r {
                Some(v) => self.deep_view().field(name@) == Some(v.deep_view()),
                None => self.deep_view().field(name@) is None,
            },
    {
        match self {
            Json::Object(fields) => {
                proof {
                    lemma_object_view(*fields);
                }
                assoc::get(fields, name)
            },
            _ => None,
        }
    }

    /// The text, of a text.
    pub fn as_str(&self) -> (r: Option<&String>)
        ensures
            match r {
                Some(s) => self.deep_view().text() == Some(s@),
                None => self.deep_view().text() is None,
            },
    {
        match self {
            Json::Text(s) => Some(s),
            _ => None,
        }
    }

    /// The items, of an array.
    pub fn as_array(&self) -> (r: Option<&Vec<Json>>)
        ensures
            match r {
                Some(items) => self.deep_view().items() == Some(items.deep_view()),
                None => self.deep_view().items() is None,
            },
    {
        match self {
            Json::Array(items) => {
                proof {
                    lemma_array_view(*items);
                }
                Some(items)
            },
            _ => None,
        }
    }

    /// The text of the field `name`, where it is a text.
    pub fn get_str(&self, name: &str) -> (r: Option<&String>)
        ensures
            match r {
                Some(s) => self.deep_view().text_field(name@) == Some(s@),
                None => self.deep_view().text_field(name@) is None,
            },
    {
        match self.get(name) {
            Some(v) => v.as_str(),
            None => None,
        }
    }
}

/// A value of `serde_json`.
#[verifier::external_type_specification]
#[verifier::external_body]
pub struct ExValue(serde_json::Value);

/// What a value of `serde_json` holds. The fields of an object stand in the
/// order in which its map hands them out.
pub uninterp spec fn value_view(v: serde_json::Value) -> JsonView;

/// What `serde_json::from_str` makes of a text, or nothing where it fails.
pub uninterp spec fn parsed(text: Seq<char>) -> Option<JsonView>;

/// `serde_json::from_str` into a `serde_json::Value`: whether it succeeds, and
/// what the value then holds, is a function of the text.
#[verifier::external_body]
fn parse_value(text: &str) -> (r: Option<serde_json::Value>)
    ensures
        match r {
            Some(v) => parsed(text@) == Some(value_view(v)),
            None => parsed(text@) is None,
        },
{
    serde_json::from_str(text).ok()
}

/// The outermost layer of a value of `serde_json`.
enum Opened<'a> {
    Null,
    Bool(bool),
    Number(JsonNumber),
    Text(&'a String),
    Array(&'a Vec<serde_json::Value>),
    Object(Vec<(&'a String, &'a serde_json::Value)>),
}

/// Tells the variants of `serde_json::Value` apart and hands out what they
/// hold: numbers by their text and by `Number::as_u64`, the fields of an object
/// by `Map::iter`.
#[verifier::external_body]
fn open_value<'a>(v: &'a serde_json::Value) -> (r: Opened<'a>)
    ensures
        match r {
            Opened::Null => value_view(*v) == JsonView::Null,
            Opened::Bool(b) => value_view(*v) == JsonView::Bool(b),
            Opened::Number(n) => value_view(*v) == (JsonView::Number {
                text: n.text@,
                as_u64: n.as_u64,
            }),
            Opened::Text(s) => value_view(*v) == JsonView::Text(s@),
            Opened::Array(items) => value_view(*v) is Array && value_view(*v)->Array_0.len()
                == items@.len() && forall|i: int|
                0 <= i < items@.len() ==> value_view(#[trigger] items@[i])
                    == value_view(*v)->Array_0[i],
            Opened::Object(fields) => value_view(*v) is Object && value_view(*v)->Object_0.len()
                == fields@.len() && forall|i: int|
                0 <= i < fields@.len() ==> ((#[trigger] fields@[i]).0@, value_view(*fields@[i].1))
                    == value_view(*v)->Object_0[i],
        },
{
    match v {
        serde_json::Value::Null => Opened::Null,
        serde_json::Value::Bool(b) => Opened::Bool(*b),
        serde_json::Value::Number(n) => {
            Opened::Number(JsonNumber { text: n.to_string(), as_u64: n.as_u64() })
        },
        serde_json::Value::String(s) => Opened::Text(s),
        serde_json::Value::Array(items) => Opened::Array(items),
        serde_json::Value::Object(fields) => Opened::Object(fields.iter().collect()),
    }
}

/// The JSON value that a value of `serde_json` holds.
pub fn from_value(v: &serde_json::Value) -> (r: Json)
    ensures
        r.deep_view() == value_view(*v),
    decreases value_view(*v),
{
    match open_value(v) {
        Opened::Null => Json::Null,
        Opened::Bool(b) => Json::Bool(b),
        Opened::Number(n) => Json::Number(n),
        Opened::Text(s) => Json::Text(s.clone()),
        Opened::Array(items) => {
            let mut out: Vec<Json> = Vec::new();
            let mut i: usize = 0;
            while i < items.len()
                invariant
                    i <= items@.len(),
                    value_view(*v) is Array,
                    value_view(*v)->Array_0.len() == items@.len(),
                    forall|k: int|
                        0 <= k < items@.len() ==> value_view(#[trigger] items@[k])
                            == value_view(*v)->Array_0[k],
                    out@.len() == i,
                    forall|k: int|
                        0 <= k < i ==> json_view(#[trigger] out@[k])
                            == value_view(*v)->Array_0[k],
                decreases items@.len() - i,
            {
                assert(decreases_to!(value_view(*v) => value_view(*v)->Array_0));
                out.push(from_value(&items[i]));
                i = i + 1;
            }
            proof {
                lemma_array_view(out);
                assert(out.deep_view() =~= value_view(*v)->Array_0);
            }
            Json::Array(out)
        },
        Opened::Object(fields) => {
            let mut out: Vec<(String, Json)> = Vec::new();
            let mut i: usize = 0;
            while i < fields.len()
                invariant
                    i <= fields@.len(),
                    value_view(*v) is Object,
                    value_view(*v)->Object_0.len() == fields@.len(),
                    forall|k: int|
                        0 <= k < fields@.len() ==> (
                            (#[trigger] fields@[k]).0@,
                            value_view(*fields@[k].1),
                        ) == value_view(*v)->Object_0[k],
                    out@.len() == i,
                    forall|k: int|
                        0 <= k < i ==> ((#[trigger] out@[k]).0@, json_view(out@[k].1))
                            == value_view(*v)->Object_0[k],
                decreases fields@.len() - i,
            {
                assert(decreases_to!(value_view(*v) => value_view(*v)->Object_0));
                assert(value_view(*fields@[i as int].1) == value_view(*v)->Object_0[i as int].1);
                out.push((fields[i].0.clone(), from_value(fields[i].1)));
                i = i + 1;
            }
            proof {
                lemma_object_view(out);
                assert(out.deep_view() =~= value_view(*v)->Object_0);
            }
            Json::Object(out)
        },
    }
}

/// Parses a JSON text.
pub fn parse(text: &str) -> (r: Option<Json>)
    ensures
        match r {
            Some(j) => parsed(text@) == Some(j.deep_view()),
            None => parsed(text@) is None,
        },
{
    match parse_value(text) {
        Some(v) => Some(from_value(&v)),
        None => None,
    }
}

} // verus!
