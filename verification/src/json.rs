//! JSON values: what the tool reads of its arguments and of a service's answer,
//! and what it sends.
use vstd::prelude::*;

verus! {

broadcast use vstd::string::group_string_axioms;

/// A number as `serde_json` keeps it. The tool never looks inside one.
#[verifier::external_type_specification]
#[verifier::external_body]
pub struct ExNumber(serde_json::Number);

/// A JSON value as `serde_json` keeps it, on its way to or from a `Json`.
#[verifier::external_type_specification]
#[verifier::external_body]
pub struct ExValue(serde_json::Value);

/// A JSON value.
#[derive(Debug)]
pub enum Json {
    Null,
    Bool(bool),
    Number(serde_json::Number),
    Text(String),
    Array(Vec<Json>),
    Object(Vec<(String, Json)>),
}

/// What a JSON value is, apart from how it is stored. The members of an object
/// stand in the order in which they are kept.
pub enum JsonView {
    Null,
    Bool(bool),
    Number(serde_json::Number),
    Text(Seq<char>),
    Array(Seq<JsonView>),
    Object(Seq<(Seq<char>, JsonView)>),
}

impl JsonView {
    /// In every object of the value, at whatever depth, no two members have the same key.
    pub open spec fn well_formed(self) -> bool
        decreases self,
    {
        match self {
            JsonView::Array(items) => forall|i: int|
                0 <= i < items.len() ==> (#[trigger] items[i]).well_formed(),
            JsonView::Object(members) => {
                &&& keys_differ(members)
                &&& forall|i: int|
                    0 <= i < members.len() ==> (#[trigger] members[i]).1.well_formed()
            },
            _ => true,
        }
    }

    /// The member of an object under `key`; nothing else has members.
    pub open spec fn get(self, key: Seq<char>) -> Option<JsonView> {
        match self {
            JsonView::Object(members) => member(members, key),
            _ => None,
        }
    }

    /// The text, where the value is one.
    pub open spec fn as_text(self) -> Option<Seq<char>> {
        match self {
            JsonView::Text(t) => Some(t),
            _ => None,
        }
    }

    /// The text of the member under `key`, where there is one and it is a text.
    pub open spec fn text_of(self, key: Seq<char>) -> Option<Seq<char>> {
        match self.get(key) {
            Some(v) => v.as_text(),
            None => None,
        }
    }
}

/// No two members have the same key.
pub open spec fn keys_differ(members: Seq<(Seq<char>, JsonView)>) -> bool {
    forall|i: int, j: int|
        0 <= i < j < members.len() ==> (#[trigger] members[i]).0 != (#[trigger] members[j]).0
}

/// The value that `key` has: that of the last member under it, as when a later member
/// takes the place of an earlier one.
pub open spec fn member(members: Seq<(Seq<char>, JsonView)>, key: Seq<char>) -> Option<JsonView>
    decreases members.len(),
{
    if members.len() == 0 {
        None
    } else if members.last().0 == key {
        Some(members.last().1)
    } else {
        member(members.drop_last(), key)
    }
}

/// What a stored JSON value stands for.
pub open spec fn json_view(json: Json) -> JsonView
    decreases json,
{
    match json {
        Json::Null => JsonView::Null,
        Json::Bool(b) => JsonView::Bool(b),
        Json::Number(n) => JsonView::Number(n),
        Json::Text(t) => JsonView::Text(t@),
        Json::Array(items) => JsonView::Array(
            Seq::new(
                items@.len(),
                |i: int|
                    if 0 <= i < items@.len() {
                        json_view(items@[i])
                    } else {
                        JsonView::Null
                    },
            ),
        ),
        Json::Object(members) => JsonView::Object(
            Seq::new(
                members@.len(),
                |i: int|
                    if 0 <= i < members@.len() {
                        (members@[i].0@, json_view(members@[i].1))
                    } else {
                        (seq![], JsonView::Null)
                    },
            ),
        ),
    }
}

impl View for Json {
    type V = JsonView;

    open spec fn view(&self) -> JsonView {
        json_view(*self)
    }
}

/// What the items of a list stand for.
pub open spec fn item_views(items: Seq<Json>) -> Seq<JsonView> {
    items.map_values(|item: Json| item@)
}

/// What the members of an object stand for.
pub open spec fn member_views(members: Seq<(String, Json)>) -> Seq<(Seq<char>, JsonView)> {
    members.map_values(|m: (String, Json)| (m.0@, m.1@))
}

/// The view of a list is the list of its items' views.
pub broadcast proof fn lemma_array_view(items: Vec<Json>)
    ensures
        (#[trigger] Json::Array(items)@) == JsonView::Array(item_views(items@)),
{
    let view = Json::Array(items)@;
    assert(view->Array_0 == item_views(items@));
}

/// The view of an object is the list of its members' views.
pub broadcast proof fn lemma_object_view(members: Vec<(String, Json)>)
    ensures
        (#[trigger] Json::Object(members)@) == JsonView::Object(member_views(members@)),
{
    let view = Json::Object(members)@;
    assert(view->Object_0 == member_views(members@));
}

/// `serde_json::Number::clone` hands back an equal number.
pub assume_specification[ <serde_json::Number as Clone>::clone ](
    n: &serde_json::Number,
) -> (r: serde_json::Number)
    ensures
        r == *n,
;

impl Clone for Json {
    fn clone(&self) -> (r: Self)
        ensures
            r@ == self@,
        decreases self,
    {
        broadcast use lemma_array_view, lemma_object_view;

        match self {
            Json::Null => Json::Null,
            Json::Bool(b) => Json::Bool(*b),
            Json::Number(n) => Json::Number(n.clone()),
            Json::Text(t) => Json::Text(t.clone()),
            Json::Array(items) => {
                let mut copies: Vec<Json> = Vec::new();
                let mut i: usize = 0;
                while i < items.len()
                    invariant
                        i <= items.len(),
                        *self == Json::Array(*items),
                        item_views(copies@) == item_views(items@).take(i as int),
                    decreases items.len() - i,
                {
                    assert(decreases_to!(*self => self->Array_0));
                    assert(decreases_to!(items@ => items@[i as int]));
                    let copy = items[i].clone();
                    let ghost before = item_views(copies@);
                    copies.push(copy);
                    assert(item_views(copies@) == before.push(copy@));
                    assert(item_views(items@).take(i + 1) == before.push(item_views(items@)[i as int]));
                    i = i + 1;
                }
                assert(item_views(copies@) == item_views(items@));
                Json::Array(copies)
            },
            Json::Object(members) => {
                let mut copies: Vec<(String, Json)> = Vec::new();
                let mut i: usize = 0;
                while i < members.len()
                    invariant
                        i <= members.len(),
                        *self == Json::Object(*members),
                        member_views(copies@) == member_views(members@).take(i as int),
                    decreases members.len() - i,
                {
                    assert(decreases_to!(*self => self->Object_0));
                    assert(decreases_to!(members@ => members@[i as int]));
                    let copy = members[i].1.clone();
                    let ghost before = member_views(copies@);
                    copies.push((members[i].0.clone(), copy));
                    assert(member_views(copies@) == before.push((members@[i as int].0@, copy@)));
                    assert(member_views(members@).take(i + 1) == before.push(
                        member_views(members@)[i as int],
                    ));
                    i = i + 1;
                }
                assert(member_views(copies@) == member_views(members@));
                Json::Object(copies)
            },
        }
    }
}

impl Json {
    /// The member of an object under `key`; nothing else has members.
    pub fn get(&self, key: &str) -> (r: Option<&Json>)
        ensures
            match r {
                Some(v) => self@.get(key@) == Some(v@),
                None => self@.get(key@) is None,
            },
    {
        broadcast use lemma_object_view;

        match self {
            Json::Object(members) => {
                let ghost all = member_views(members@);
                let mut n: usize = members.len();
                assert(all.take(n as int) == all);
                while n > 0
                    invariant
                        n <= members.len(),
                        all == member_views(members@),
                        self@ == JsonView::Object(all),
                        member(all.take(n as int), key@) == member(all, key@),
                    decreases n,
                {
                    assert(all.take(n as int).last() == all[n - 1]);
                    if crate::text::same_text(members[n - 1].0.as_str(), key) {
                        return Some(&members[n - 1].1);
                    }
                    assert(all.take(n as int).drop_last() == all.take(n - 1));
                    n = n - 1;
                }
                None
            },
            _ => None,
        }
    }

    /// The text, where the value is one.
    pub fn as_str(&self) -> (r: Option<&str>)
        ensures
            match r {
                Some(t) => self@.as_text() == Some(t@),
                None => self@.as_text() is None,
            },
    {
        match self {
            Json::Text(t) => Some(t.as_str()),
            _ => None,
        }
    }

    /// The text of the member under `key`, where there is one and it is a text.
    pub fn str_of(&self, key: &str) -> (r: Option<&str>)
        ensures
            match r {
                Some(t) => self@.text_of(key@) == Some(t@),
                None => self@.text_of(key@) is None,
            },
    {
        match self.get(key) {
            Some(v) => v.as_str(),
            None => None,
        }
    }

    /// The items, where the value is a list.
    pub fn as_array(&self) -> (r: Option<&Vec<Json>>)
        ensures
            match r {
                Some(items) => self@ == JsonView::Array(item_views(items@)),
                None => !(self@ is Array),
            },
    {
        broadcast use lemma_array_view;

        match self {
            Json::Array(items) => Some(items),
            _ => None,
        }
    }

    /// Whether the value is `null`.
    pub fn is_null(&self) -> (r: bool)
        ensures
            r == (self@ is Null),
    {
        matches!(self, Json::Null)
    }

    /// Whether the value is an object.
    pub fn is_object(&self) -> (r: bool)
        ensures
            r == (self@ is Object),
    {
        matches!(self, Json::Object(_))
    }
}

/// The value that `serde_json::from_str` reads from a text, taken as a
/// `serde_json::Value`; none where it reports an error.
pub uninterp spec fn parsed(text: Seq<char>) -> Option<JsonView>;

/// The text that `serde_json::to_string_pretty` gives for a value; none where it
/// reports an error.
pub uninterp spec fn pretty(json: JsonView) -> Option<Seq<char>>;

/// Moves a value of `serde_json` over, variant by variant; the members of an object
/// come in the order in which `serde_json` walks them.
#[verifier::external_body]
fn from_value(value: serde_json::Value) -> (r: Json) {
    match value {
        serde_json::Value::Null => Json::Null,
        serde_json::Value::Bool(b) => Json::Bool(b),
        serde_json::Value::Number(n) => Json::Number(n),
        serde_json::Value::String(t) => Json::Text(t),
        serde_json::Value::Array(items) => Json::Array(items.into_iter().map(from_value).collect()),
        serde_json::Value::Object(members) => Json::Object(
            members.into_iter().map(|(key, v)| (key, from_value(v))).collect(),
        ),
    }
}

/// Copies a value over to `serde_json`, variant by variant.
#[verifier::external_body]
fn to_value(json: &Json) -> (r: serde_json::Value) {
    match json {
        Json::Null => serde_json::Value::Null,
        Json::Bool(b) => serde_json::Value::Bool(*b),
        Json::Number(n) => serde_json::Value::Number(n.clone()),
        Json::Text(t) => serde_json::Value::String(t.clone()),
        Json::Array(items) => serde_json::Value::Array(items.iter().map(to_value).collect()),
        Json::Object(members) => serde_json::Value::Object(
            members.iter().map(|(key, v)| (key.clone(), to_value(v))).collect(),
        ),
    }
}

/// Calls `serde_json::from_str`, asking for a `serde_json::Value`. Claims that
/// success, and the value read, depend on the text alone, and that a text which ends
/// with a full stop is not read: no value ends with one, and nothing but white space may
/// stand behind a value.
#[verifier::external_body]
pub(crate) fn parse(text: &str) -> (r: Option<Json>)
    ensures
        match r {
            Some(json) => parsed(text@) == Some(json@),
            None => parsed(text@) is None,
        },
        text@.len() > 0 && text@.last() == '.' ==> r is None,
{
    serde_json::from_str::<serde_json::Value>(text).ok().map(from_value)
}

/// Calls `serde_json::to_string_pretty`. Claims that success, and the text written,
/// depend on the value alone.
#[verifier::external_body]
pub(crate) fn to_pretty(json: &Json) -> (r: Option<String>)
    ensures
        match r {
            Some(text) => pretty(json@) == Some(text@),
            None => pretty(json@) is None,
        },
{
    serde_json::to_string_pretty(&to_value(json)).ok()
}

} // verus!
