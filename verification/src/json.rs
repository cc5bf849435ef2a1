//! JSON values as the tools read and write them.
//!
//! Response bodies arrive as text. `Json::parse` turns a body into a `Json`
//! value; everything after that (looking up members, reading strings and
//! arrays) is verified code on this type.

use crate::text::{chars_of, same_chars, strs_view};
use serde_json::Value;
use vstd::prelude::*;

verus! {

/// A JSON value.
#[derive(Debug, PartialEq, Eq)]
pub enum Json {
    Null,
    Bool(bool),
    /// A non-negative integer.
    Unsigned(u64),
    /// A negative integer.
    Signed(i64),
    /// Any other number, by its decimal text.
    Real(String),
    Text(String),
    Array(Vec<Json>),
    /// The members of an object, in order. Looking up a key finds the first
    /// member that has it.
    Object(Vec<(String, Json)>),
}

/// A JSON value as plain values.
pub enum JsonView {
    Null,
    Bool(bool),
    Unsigned(u64),
    Signed(i64),
    Real(Seq<char>),
    Text(Seq<char>),
    Array(Seq<JsonView>),
    Object(Seq<(Seq<char>, JsonView)>),
}

/// The view of a JSON value: the same value, texts as sequences of
/// characters, arrays and objects as sequences.
pub open spec fn json_view(j: Json) -> JsonView
    decreases j,
{
    match j {
        Json::Null => JsonView::Null,
        Json::Bool(b) => JsonView::Bool(b),
        Json::Unsigned(n) => JsonView::Unsigned(n),
        Json::Signed(n) => JsonView::Signed(n),
        Json::Real(s) => JsonView::Real(s@),
        Json::Text(s) => JsonView::Text(s@),
        Json::Array(a) => JsonView::Array(
            Seq::new(
                a@.len(),
                |i: int|
                    if 0 <= i < a@.len() {
                        json_view(a@[i])
                    } else {
                        JsonView::Null
                    },
            ),
        ),
        Json::Object(m) => JsonView::Object(
            Seq::new(
                m@.len(),
                |i: int|
                    if 0 <= i < m@.len() {
                        (m@[i].0@, json_view(m@[i].1))
                    } else {
                        (Seq::<char>::empty(), JsonView::Null)
                    },
            ),
        ),
    }
}

impl View for Json {
    type V = JsonView;

    open spec fn view(&self) -> JsonView {
        json_view(*self)
    }
}

/// The views of the items of an array.
pub open spec fn items_views(items: Seq<Json>) -> Seq<JsonView> {
    items.map_values(|j: Json| j@)
}

/// The views of the members of an object.
pub open spec fn members_view(members: Seq<(String, Json)>) -> Seq<(Seq<char>, JsonView)> {
    members.map_values(|m: (String, Json)| (m.0@, m.1@))
}

/// The view of a value that may be missing.
pub open spec fn opt_json_view(j: Option<Json>) -> Option<JsonView> {
    match j {
        Some(v) => Some(v@),
        None => None,
    }
}

/// The view of an array is the array of the views of its items; the view of
/// an object is the object of the views of its members.
pub proof fn lemma_json_view(j: Json)
    ensures
        j matches Json::Array(a) ==> j@ == JsonView::Array(items_views(a@)),
        j matches Json::Object(m) ==> j@ == JsonView::Object(members_view(m@)),
{
    match j {
        Json::Array(a) => {
            assert(j@->Array_0 =~= items_views(a@));
        },
        Json::Object(m) => {
            assert(j@->Object_0 =~= members_view(m@));
        },
        _ => {},
    }
}

/// The value of the first member of `fields` whose key is `key`.
pub open spec fn lookup(fields: Seq<(Seq<char>, JsonView)>, key: Seq<char>) -> Option<JsonView>
    decreases fields.len(),
{
    if fields.len() == 0 {
        None
    } else if fields[0].0 == key {
        Some(fields[0].1)
    } else {
        lookup(fields.drop_first(), key)
    }
}

impl JsonView {
    /// The member `key` of an object; `None` for every other value.
    pub open spec fn member(self, key: Seq<char>) -> Option<JsonView> {
        match self {
            JsonView::Object(fields) => lookup(fields, key),
            _ => None,
        }
    }

    /// The text of a string value; `None` for every other value.
    pub open spec fn text(self) -> Option<Seq<char>> {
        match self {
            JsonView::Text(s) => Some(s),
            _ => None,
        }
    }

    /// The items of an array; `None` for every other value.
    pub open spec fn items(self) -> Option<Seq<JsonView>> {
        match self {
            JsonView::Array(a) => Some(a),
            _ => None,
        }
    }

    /// The text of the string member `key`, if the value is an object that
    /// has such a member.
    pub open spec fn member_text(self, key: Seq<char>) -> Option<Seq<char>> {
        match self.member(key) {
            Some(v) => v.text(),
            None => None,
        }
    }

    /// The first item of a non-empty array; `None` for every other value.
    pub open spec fn first_item(self) -> Option<JsonView> {
        match self {
            JsonView::Array(a) => if a.len() > 0 {
                Some(a[0])
            } else {
                None
            },
            _ => None,
        }
    }
}

/// The value reached from `j` by taking the members `keys` one after the
/// other; `None` as soon as one is missing.
pub open spec fn walk(j: JsonView, keys: Seq<Seq<char>>) -> Option<JsonView>
    decreases keys.len(),
{
    if keys.len() == 0 {
        Some(j)
    } else {
        match j.member(keys[0]) {
            Some(v) => walk(v, keys.drop_first()),
            None => None,
        }
    }
}

/// `walk` from a value that may be missing already.
pub open spec fn walk_from(j: Option<JsonView>, keys: Seq<Seq<char>>) -> Option<JsonView> {
    match j {
        Some(v) => walk(v, keys),
        None => None,
    }
}

/// The first item of an array that may be missing.
pub open spec fn first_of(j: Option<JsonView>) -> Option<JsonView> {
    match j {
        Some(v) => v.first_item(),
        None => None,
    }
}

/// The text of the string member `key` of a value that may be missing.
pub open spec fn text_in(j: Option<JsonView>, key: Seq<char>) -> Option<Seq<char>> {
    match j {
        Some(v) => v.member_text(key),
        None => None,
    }
}

/// The view of a value that is borrowed and may be missing.
pub open spec fn opt_ref_view(j: Option<&Json>) -> Option<JsonView> {
    match j {
        Some(v) => Some(v@),
        None => None,
    }
}

/// A JSON document as `serde_json` holds it.
#[verifier::external_type_specification]
#[verifier::external_body]
pub struct ExValue(Value);

/// The JSON value that a `serde_json::Value` stands for.
pub uninterp spec fn value_json(v: Value) -> JsonView;

/// The JSON value that a text denotes, as `serde_json::from_str` reads it;
/// `None` where the text is not one JSON document.
pub uninterp spec fn parsed_json(text: Seq<char>) -> Option<JsonView>;

/// `serde_json::from_str` reads one JSON document from a text and fails on
/// anything else; what it yields depends on the text alone.
#[verifier::external_body]
fn value_of_text(text: &str) -> (r: Option<Value>)
    ensures
        match r {
            Some(v) => parsed_json(text@) == Some(value_json(v)),
            None => parsed_json(text@) is None,
        },
{
    serde_json::from_str::<Value>(text).ok()
}

/// Carries a `serde_json::Value` over into a `Json`, variant by variant:
/// numbers by `Number::as_u64`, `Number::as_i64` or their text, arrays and
/// objects item by item in the order `serde_json` holds them.
#[verifier::external_body]
fn json_of_value(v: &Value) -> (r: Json)
    ensures
        r@ == value_json(*v),
{
    match v {
        Value::Null => Json::Null,
        Value::Bool(b) => Json::Bool(*b),
        Value::Number(n) => match (n.as_u64(), n.as_i64()) {
            (Some(u), _) => Json::Unsigned(u),
            (None, Some(i)) => Json::Signed(i),
            (None, None) => Json::Real(n.to_string()),
        },
        Value::String(s) => Json::Text(s.clone()),
        Value::Array(a) => Json::Array(a.iter().map(json_of_value).collect()),
        Value::Object(m) => Json::Object(
            m.iter().map(|(k, x)| (k.clone(), json_of_value(x))).collect(),
        ),
    }
}

impl Json {
    /// The array with the items `items`.
    pub fn array(items: Vec<Json>) -> (r: Json)
        ensures
            r == Json::Array(items),
            r@ == JsonView::Array(items_views(items@)),
    {
        let r = Json::Array(items);
        proof {
            lemma_json_view(r);
        }
        r
    }

    /// The object with the members `members`, in order.
    pub fn object(members: Vec<(String, Json)>) -> (r: Json)
        ensures
            r == Json::Object(members),
            r@ == JsonView::Object(members_view(members@)),
    {
        let r = Json::Object(members);
        proof {
            lemma_json_view(r);
        }
        r
    }

    /// The JSON value that `text` denotes, `None` where `text` is not one
    /// JSON document.
    pub fn parse(text: &str) -> (r: Option<Json>)
        ensures
            opt_json_view(r) == parsed_json(text@),
    {
        match value_of_text(text) {
            Some(v) => Some(json_of_value(&v)),
            None => None,
        }
    }

    /// The first item of a non-empty array.
    pub fn first(&self) -> (r: Option<&Json>)
        ensures
            opt_ref_view(r) == self@.first_item(),
    {
        proof {
            lemma_json_view(*self);
        }
        match self {
            Json::Array(a) => if a.len() > 0 {
                Some(&a[0])
            } else {
                None
            },
            _ => None,
        }
    }

    /// The value reached by taking the members `keys` one after the other.
    pub fn descend<'a, 'b>(&'a self, keys: &Vec<&'b str>) -> (r: Option<&'a Json>)
        ensures
            opt_ref_view(r) == walk(self@, strs_view(keys@)),
    {
        let ghost all = strs_view(keys@);
        let mut at: &Json = self;
        let mut i: usize = 0;
        assert(all.skip(0) == all);
        while i < keys.len()
            invariant
                i <= keys.len(),
                all == strs_view(keys@),
                walk(self@, all) == walk(at@, all.skip(i as int)),
            decreases keys.len() - i,
        {
            assert(all.skip(i as int)[0] == keys@[i as int]@);
            assert(all.skip(i as int).drop_first() == all.skip(i + 1));
            match at.get(keys[i]) {
                Some(v) => {
                    at = v;
                },
                None => {
                    return None;
                },
            }
            i += 1;
        }
        Some(at)
    }

    /// The member `key` of an object: the first one with that key.
    pub fn get(&self, key: &str) -> (r: Option<&Json>)
        ensures
            opt_ref_view(r) == self@.member(key@),
    {
        proof {
            lemma_json_view(*self);
        }
        match self {
            Json::Object(fields) => {
                let k = chars_of(key);
                let ghost all = members_view(fields@);
                let mut i: usize = 0;
                assert(all.skip(0) == all);
                while i < fields.len()
                    invariant
                        i <= fields.len(),
                        k@ == key@,
                        all == members_view(fields@),
                        self@.member(key@) == lookup(all, key@),
                        lookup(all, key@) == lookup(all.skip(i as int), key@),
                    decreases fields.len() - i,
                {
                    let name = chars_of(fields[i].0.as_str());
                    assert(all.skip(i as int)[0] == all[i as int]);
                    assert(all[i as int] == (fields@[i as int].0@, fields@[i as int].1@));
                    if same_chars(&name, &k) {
                        return Some(&fields[i].1);
                    }
                    assert(all.skip(i as int).drop_first() == all.skip(i + 1));
                    i += 1;
                }
                None
            },
            _ => None,
        }
    }

    /// The text of a string value.
    pub fn as_text(&self) -> (r: Option<&String>)
        ensures
            match r {
                Some(s) => self@.text() == Some(s@),
                None => self@.text() is None,
            },
    {
        match self {
            Json::Text(s) => Some(s),
            _ => None,
        }
    }

    /// The items of an array.
    pub fn as_array(&self) -> (r: Option<&Vec<Json>>)
        ensures
            match r {
                Some(a) => self@.items() == Some(items_views(a@)),
                None => self@.items() is None,
            },
    {
        proof {
            lemma_json_view(*self);
        }
        match self {
            Json::Array(a) => Some(a),
            _ => None,
        }
    }

    /// The text of the string member `key` of an object.
    pub fn get_text(&self, key: &str) -> (r: Option<&String>)
        ensures
            match r {
                Some(s) => self@.member_text(key@) == Some(s@),
                None => self@.member_text(key@) is None,
            },
    {
        match self.get(key) {
            Some(v) => v.as_text(),
            None => None,
        }
    }

    /// Whether the value is an object.
    pub fn is_object(&self) -> (r: bool)
        ensures
            r == (self@ is Object),
    {
        match self {
            Json::Object(_) => true,
            _ => false,
        }
    }
}

} // verus!
