//! What reading a JSON value means.
use crate::exchange;
use crate::json;
use crate::json::Json;
use crate::json::JsonView;
use vstd::prelude::*;

verus! {

broadcast use vstd::string::group_string_axioms;

/// A member of an object is found by its key: the last one under it. Without one, and in
/// anything but an object, nothing is found.
pub proof fn law_get(value: JsonView, key: Seq<char>)
    ensures
        match value {
            JsonView::Object(members) => {
                &&& forall|i: int|
                    0 <= i < members.len() && (#[trigger] members[i]).0 == key && (forall|j: int|
                        i < j < members.len() ==> (#[trigger] members[j]).0 != key) ==> value.get(key)
                        == Some(members[i].1)
                &&& value.get(key) is Some ==> exists|i: int|
                    0 <= i < members.len() && (#[trigger] members[i]).0 == key && value.get(key)
                        == Some(members[i].1)
            },
            _ => value.get(key) is None,
        },
{
    if let JsonView::Object(members) = value {
        lemma_member(members, key);
    }
}

/// The last member under a key is the one that is found.
proof fn lemma_member(members: Seq<(Seq<char>, JsonView)>, key: Seq<char>)
    ensures
        forall|i: int|
            0 <= i < members.len() && (#[trigger] members[i]).0 == key && (forall|j: int|
                i < j < members.len() ==> (#[trigger] members[j]).0 != key) ==> json::member(
                members,
                key,
            ) == Some(members[i].1),
        json::member(members, key) is Some ==> exists|i: int|
            0 <= i < members.len() && (#[trigger] members[i]).0 == key && json::member(members, key)
                == Some(members[i].1),
    decreases members.len(),
{
    if members.len() > 0 {
        let end = members.len() - 1;
        assert(members[end] == members.last());
        if members.last().0 != key {
            let rest = members.drop_last();
            lemma_member(rest, key);
            assert forall|i: int|
                0 <= i < members.len() && (#[trigger] members[i]).0 == key && (forall|j: int|
                    i < j < members.len() ==> (#[trigger] members[j]).0
                        != key) implies json::member(members, key) == Some(members[i].1) by {
                assert(rest[i] == members[i]);
                assert forall|j: int| i < j < rest.len() implies (#[trigger] rest[j]).0 != key by {
                    assert(rest[j] == members[j]);
                }
            }
            if json::member(members, key) is Some {
                let i = choose|i: int|
                    0 <= i < rest.len() && (#[trigger] rest[i]).0 == key && json::member(rest, key)
                        == Some(rest[i].1);
                assert(members[i] == rest[i]);
            }
        } else {
            assert forall|i: int|
                0 <= i < members.len() && (#[trigger] members[i]).0 == key && (forall|j: int|
                    i < j < members.len() ==> (#[trigger] members[j]).0
                        != key) implies json::member(members, key) == Some(members[i].1) by {
                if i < end {
                    assert(members[end].0 == key);
                }
            }
        }
    }
}

/// The text under a key is the text that stands there, in full; any other kind of value
/// is no text.
pub proof fn law_text_of(value: JsonView, key: Seq<char>)
    ensures
        match value.get(key) {
            Some(JsonView::Text(t)) => value.text_of(key) == Some(t),
            _ => value.text_of(key) is None,
        },
        value.as_text() == match value {
            JsonView::Text(t) => Some(t),
            _ => None,
        },
{
}

/// A stored value stands for the value of its kind with the same contents, in place.
pub proof fn law_stored(stored: Json)
    ensures
        match stored {
            Json::Null => stored@ == JsonView::Null,
            Json::Bool(b) => stored@ == JsonView::Bool(b),
            Json::Number(n) => stored@ == JsonView::Number(n),
            Json::Text(t) => stored@ == JsonView::Text(t@),
            Json::Array(items) => {
                &&& stored@ is Array
                &&& stored@->Array_0.len() == items@.len()
                &&& forall|i: int|
                    0 <= i < items@.len() ==> #[trigger] stored@->Array_0[i] == items@[i]@
            },
            Json::Object(members) => {
                &&& stored@ is Object
                &&& stored@->Object_0.len() == members@.len()
                &&& forall|i: int|
                    0 <= i < members@.len() ==> #[trigger] stored@->Object_0[i] == (
                        members@[i].0@,
                        members@[i].1@,
                    )
            },
        },
{
}

/// What lists of values, members and headers stand for, in place.
pub proof fn law_stored_lists(
    items: Seq<Json>,
    members: Seq<(String, Json)>,
    headers: Seq<(String, String)>,
)
    ensures
        json::item_views(items).len() == items.len(),
        forall|i: int| 0 <= i < items.len() ==> #[trigger] json::item_views(items)[i] == items[i]@,
        json::member_views(members).len() == members.len(),
        forall|i: int|
            0 <= i < members.len() ==> #[trigger] json::member_views(members)[i] == (
                members[i].0@,
                members[i].1@,
            ),
        exchange::header_views(headers).len() == headers.len(),
        forall|i: int|
            0 <= i < headers.len() ==> #[trigger] exchange::header_views(headers)[i] == (
                headers[i].0@,
                headers[i].1@,
            ),
{
}

} // verus!
