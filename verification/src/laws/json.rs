//! Looking into JSON.
use vstd::prelude::*;

use crate::json::find_member;
use crate::json::Json;
use crate::json::JsonTree;

verus! {

proof fn find_first(m: Seq<(Seq<char>, JsonTree)>, key: Seq<char>, i: int)
    requires
        0 <= i < m.len(),
        m[i].0 == key,
        forall|j: int| 0 <= j < i ==> (#[trigger] m[j]).0 != key,
    ensures
        find_member(m, key) == Some(m[i].1),
    decreases m.len(),
{
    if i > 0 {
        let t = m.drop_first();
        assert(t[i - 1] == m[i]);
        assert forall|j: int| 0 <= j < i - 1 implies (#[trigger] t[j]).0 != key by {
            assert(t[j] == m[j + 1]);
        }
        find_first(t, key, i - 1);
    }
}

proof fn find_none(m: Seq<(Seq<char>, JsonTree)>, key: Seq<char>)
    requires
        forall|j: int| 0 <= j < m.len() ==> (#[trigger] m[j]).0 != key,
    ensures
        find_member(m, key) is None,
    decreases m.len(),
{
    if m.len() > 0 {
        let t = m.drop_first();
        assert forall|j: int| 0 <= j < t.len() implies (#[trigger] t[j]).0 != key by {
            assert(t[j] == m[j + 1]);
        }
        find_none(t, key);
    }
}

/// A member is found under its name, the first of that name; under a name that no member has,
/// and in anything but an object, nothing is found.
pub proof fn members_are_found_by_name(m: Seq<(Seq<char>, JsonTree)>, key: Seq<char>, i: int)
    ensures
        0 <= i < m.len() && m[i].0 == key && (forall|j: int|
            0 <= j < i ==> (#[trigger] m[j]).0 != key) ==> JsonTree::Object(m).member(key) == Some(
            m[i].1,
        ),
        (forall|j: int| 0 <= j < m.len() ==> (#[trigger] m[j]).0 != key) ==> JsonTree::Object(
            m,
        ).member(key) is None,
{
    if 0 <= i < m.len() && m[i].0 == key && (forall|j: int|
        0 <= j < i ==> (#[trigger] m[j]).0 != key) {
        find_first(m, key, i);
    }
    if forall|j: int| 0 <= j < m.len() ==> (#[trigger] m[j]).0 != key {
        find_none(m, key);
    }
}

/// Anything but an object has no members.
pub proof fn only_objects_have_members(v: JsonTree, key: Seq<char>)
    requires
        !(v is Object),
    ensures
        v.member(key) is None,
{
}

/// A member is an integer, a text, a truth value or a list exactly where that stands under its
/// name; a missing or other one counts as zero.
pub proof fn members_have_their_kind(v: JsonTree, key: Seq<char>)
    ensures
        forall|i: int|
            (#[trigger] v.int_member(key) == Some(i)) <==> v.member(key) == Some(JsonTree::Int(i)),
        forall|s: Seq<char>|
            (#[trigger] v.text_member(key) == Some(s)) <==> v.member(key) == Some(
                JsonTree::Text(s),
            ),
        forall|b: bool|
            (#[trigger] v.bool_member(key) == Some(b)) <==> v.member(key) == Some(
                JsonTree::Bool(b),
            ),
        forall|a: Seq<JsonTree>|
            (#[trigger] v.array_member(key) == Some(a)) <==> v.member(key) == Some(
                JsonTree::Array(a),
            ),
        v.member(key) matches Some(JsonTree::Int(i)) ==> v.int_or_zero(key) == i,
        !(v.member(key) matches Some(JsonTree::Int(_))) ==> v.int_or_zero(key) == 0,
{
}

/// A value in memory stands for the same value as a tree.
pub proof fn values_are_trees(v: Json)
    ensures
        match v {
            Json::Null => v.tree() is Null,
            Json::Bool(b) => v.tree() == JsonTree::Bool(b),
            Json::Int(i) => v.tree() == JsonTree::Int(i as int),
            Json::Real(s) => v.tree() == JsonTree::Real(s@),
            Json::Text(s) => v.tree() == JsonTree::Text(s@),
            Json::Array(a) => v.tree() matches JsonTree::Array(t) && t.len() == a@.len() && forall|
                i: int,
            | 0 <= i < a@.len() ==> #[trigger] t[i] == a@[i].tree(),
            Json::Object(m) => v.tree() matches JsonTree::Object(t) && t.len() == m@.len()
                && forall|i: int|
                0 <= i < m@.len() ==> #[trigger] t[i] == (m@[i].0@, m@[i].1.tree()),
        },
{
}

} // verus!
