//! JSON documents as plain values.
use vstd::prelude::*;

use crate::outside::json_text;
use crate::outside::json_tree;
use crate::outside::object_to_string;
use crate::outside::value_from_str;
use crate::outside::value_node;
use crate::outside::value_to_string;
use crate::outside::value_tree;
use crate::outside::Node;
use crate::text::same_text;
use crate::text::texts;

verus! {

/// The mathematical model of a JSON value.
pub enum JsonTree {
    Null,
    Bool(bool),
    /// A number that is a 64-bit signed integer.
    Int(int),
    /// Any other number, as the text it prints as.
    Real(Seq<char>),
    Text(Seq<char>),
    Array(Seq<JsonTree>),
    Object(Seq<(Seq<char>, JsonTree)>),
}

/// A JSON value.
pub enum Json {
    Null,
    Bool(bool),
    /// A number that is a 64-bit signed integer.
    Int(i64),
    /// Any other number, as the text it prints as.
    Real(String),
    Text(String),
    Array(Vec<Json>),
    Object(Vec<(String, Json)>),
}

impl Json {
    /// The model of this value.
    pub open spec fn tree(&self) -> JsonTree
        decreases self,
    {
        match self {
            Json::Null => JsonTree::Null,
            Json::Bool(b) => JsonTree::Bool(*b),
            Json::Int(i) => JsonTree::Int(*i as int),
            Json::Real(s) => JsonTree::Real(s@),
            Json::Text(s) => JsonTree::Text(s@),
            Json::Array(a) => JsonTree::Array(
                Seq::new(a@.len(), |i: int|
                    if 0 <= i < a@.len() {
                        a@[i].tree()
                    } else {
                        JsonTree::Null
                    }),
            ),
            Json::Object(m) => JsonTree::Object(
                Seq::new(m@.len(), |i: int|
                    if 0 <= i < m@.len() {
                        (m@[i].0@, m@[i].1.tree())
                    } else {
                        (Seq::empty(), JsonTree::Null)
                    }),
            ),
        }
    }
}

/// Copies a parsed value into a tree of plain values.
fn json_of(v: &serde_json::Value) -> (r: Json)
    ensures
        r.tree() == value_tree(*v),
    decreases value_tree(*v),
{
    match value_node(v) {
        Node::Null => Json::Null,
        Node::Bool(b) => Json::Bool(b),
        Node::Int(i) => Json::Int(i),
        Node::Real(s) => Json::Real(s),
        Node::Text(s) => Json::Text(s.clone()),
        Node::Items(a) => {
            let mut out: Vec<Json> = Vec::new();
            let mut i: usize = 0;
            while i < a.len()
                invariant
                    i <= a@.len(),
                    value_tree(*v) == Node::Items(a).tree(),
                    out@.len() == i,
                    forall|j: int| 0 <= j < i ==> out@[j].tree() == value_tree(#[trigger] a@[j]),
                decreases a@.len() - i,
            {
                assert(value_tree(*v)->Array_0[i as int] == value_tree(a@[i as int]));
                assert(decreases_to!(value_tree(*v) => value_tree(*v)->Array_0[i as int]));
                out.push(json_of(&a[i]));
                i = i + 1;
            }
            let r = Json::Array(out);
            assert(r.tree()->Array_0 =~= value_tree(*v)->Array_0);
            r
        },
        Node::Fields(f) => {
            let mut out: Vec<(String, Json)> = Vec::new();
            let mut i: usize = 0;
            while i < f.len()
                invariant
                    i <= f@.len(),
                    value_tree(*v) == Node::Fields(f).tree(),
                    out@.len() == i,
                    forall|j: int|
                        0 <= j < i ==> out@[j].0@ == (#[trigger] f@[j]).0@ && out@[j].1.tree()
                            == value_tree(*f@[j].1),
                decreases f@.len() - i,
            {
                assert(value_tree(*v)->Object_0[i as int].1 == value_tree(*f@[i as int].1));
                assert(decreases_to!(value_tree(*v) => value_tree(*v)->Object_0[i as int].1));
                out.push((f[i].0.clone(), json_of(f[i].1)));
                i = i + 1;
            }
            let r = Json::Object(out);
            assert(r.tree()->Object_0 =~= value_tree(*v)->Object_0);
            r
        },
    }
}

/// The value of the first member called `key`.
pub open spec fn find_member(m: Seq<(Seq<char>, JsonTree)>, key: Seq<char>) -> Option<JsonTree>
    decreases m.len(),
{
    if m.len() == 0 {
        None
    } else if m[0].0 == key {
        Some(m[0].1)
    } else {
        find_member(m.drop_first(), key)
    }
}

impl JsonTree {
    /// The member of an object that is called `key`.
    pub open spec fn member(self, key: Seq<char>) -> Option<JsonTree> {
        match self {
            JsonTree::Object(m) => find_member(m, key),
            _ => None,
        }
    }

    /// The member called `key`, where it is a 64-bit integer.
    pub open spec fn int_member(self, key: Seq<char>) -> Option<int> {
        match self.member(key) {
            Some(JsonTree::Int(i)) => Some(i),
            _ => None,
        }
    }

    /// The member called `key` where it is a 64-bit integer, else zero.
    pub open spec fn int_or_zero(self, key: Seq<char>) -> int {
        match self.int_member(key) {
            Some(i) => i,
            None => 0,
        }
    }

    /// The member called `key`, where it is a text.
    pub open spec fn text_member(self, key: Seq<char>) -> Option<Seq<char>> {
        match self.member(key) {
            Some(JsonTree::Text(s)) => Some(s),
            _ => None,
        }
    }

    /// The member called `key`, where it is a truth value.
    pub open spec fn bool_member(self, key: Seq<char>) -> Option<bool> {
        match self.member(key) {
            Some(JsonTree::Bool(b)) => Some(b),
            _ => None,
        }
    }

    /// The member called `key`, where it is an array.
    pub open spec fn array_member(self, key: Seq<char>) -> Option<Seq<JsonTree>> {
        match self.member(key) {
            Some(JsonTree::Array(a)) => Some(a),
            _ => None,
        }
    }
}

/// The models of the items of an array.
pub open spec fn trees(items: Seq<Json>) -> Seq<JsonTree> {
    items.map_values(|j: Json| j.tree())
}

impl Json {
    /// The member of an object that is called `key`.
    pub fn get(&self, key: &str) -> (r: Option<&Json>)
        ensures
            match r {
                Some(j) => self.tree().member(key@) == Some(j.tree()),
                None => self.tree().member(key@) is None,
            },
    {
        match self {
            Json::Object(m) => {
                let ghost all = self.tree()->Object_0;
                let mut i: usize = 0;
                proof {
                    assert(all.skip(0) =~= all);
                }
                while i < m.len()
                    invariant
                        i <= m@.len(),
                        self.tree() == JsonTree::Object(all),
                        all.len() == m@.len(),
                        forall|j: int|
                            0 <= j < m@.len() ==> #[trigger] all[j] == (m@[j].0@, m@[j].1.tree()),
                        find_member(all, key@) == find_member(all.skip(i as int), key@),
                    decreases m@.len() - i,
                {
                    proof {
                        assert(all.skip(i as int)[0] == all[i as int]);
                        assert(all.skip(i as int).drop_first() =~= all.skip(i + 1));
                    }
                    if same_text(m[i].0.as_str(), key) {
                        return Some(&m[i].1);
                    }
                    i = i + 1;
                }
                None
            },
            _ => None,
        }
    }

    /// The member called `key`, where it is a 64-bit integer.
    pub fn get_i64(&self, key: &str) -> (r: Option<i64>)
        ensures
            match r {
                Some(i) => self.tree().int_member(key@) == Some(i as int),
                None => self.tree().int_member(key@) is None,
            },
    {
        match self.get(key) {
            Some(Json::Int(i)) => Some(*i),
            _ => None,
        }
    }

    /// The member called `key` where it is a 64-bit integer, else zero.
    pub fn get_i64_or_zero(&self, key: &str) -> (r: i64)
        ensures
            r == self.tree().int_or_zero(key@),
    {
        match self.get_i64(key) {
            Some(i) => i,
            None => 0,
        }
    }

    /// The member called `key`, where it is a text.
    pub fn get_str(&self, key: &str) -> (r: Option<&String>)
        ensures
            match r {
                Some(s) => self.tree().text_member(key@) == Some(s@),
                None => self.tree().text_member(key@) is None,
            },
    {
        match self.get(key) {
            Some(Json::Text(s)) => Some(s),
            _ => None,
        }
    }

    /// The member called `key`, where it is a truth value.
    pub fn get_bool(&self, key: &str) -> (r: Option<bool>)
        ensures
            r == self.tree().bool_member(key@),
    {
        match self.get(key) {
            Some(Json::Bool(b)) => Some(*b),
            _ => None,
        }
    }

    /// The member called `key`, where it is an array.
    pub fn get_array(&self, key: &str) -> (r: Option<&Vec<Json>>)
        ensures
            match r {
                Some(a) => self.tree().array_member(key@) == Some(trees(a@)),
                None => self.tree().array_member(key@) is None,
            },
    {
        match self.get(key) {
            Some(Json::Array(a)) => {
                proof {
                    assert(Json::Array(*a).tree()->Array_0 =~= trees(a@));
                }
                Some(a)
            },
            _ => None,
        }
    }

    /// A copy of this value.
    pub fn copy(&self) -> (r: Json)
        ensures
            r.tree() == self.tree(),
        decreases self.tree(),
    {
        match self {
            Json::Null => Json::Null,
            Json::Bool(b) => Json::Bool(*b),
            Json::Int(i) => Json::Int(*i),
            Json::Real(s) => Json::Real(s.clone()),
            Json::Text(s) => Json::Text(s.clone()),
            Json::Array(a) => {
                let mut out: Vec<Json> = Vec::new();
                let mut i: usize = 0;
                while i < a.len()
                    invariant
                        i <= a@.len(),
                        *self == Json::Array(*a),
                        out@.len() == i,
                        forall|j: int| 0 <= j < i ==> out@[j].tree() == (#[trigger] a@[j]).tree(),
                    decreases a@.len() - i,
                {
                    assert(self.tree()->Array_0[i as int] == a@[i as int].tree());
                    assert(decreases_to!(self.tree() => self.tree()->Array_0[i as int]));
                    out.push(a[i].copy());
                    i = i + 1;
                }
                let r = Json::Array(out);
                assert(r.tree()->Array_0 =~= self.tree()->Array_0);
                r
            },
            Json::Object(m) => {
                let mut out: Vec<(String, Json)> = Vec::new();
                let mut i: usize = 0;
                while i < m.len()
                    invariant
                        i <= m@.len(),
                        *self == Json::Object(*m),
                        out@.len() == i,
                        forall|j: int|
                            0 <= j < i ==> out@[j].0@ == (#[trigger] m@[j]).0@ && out@[j].1.tree()
                                == m@[j].1.tree(),
                    decreases m@.len() - i,
                {
                    assert(self.tree()->Object_0[i as int].1 == m@[i as int].1.tree());
                    assert(decreases_to!(self.tree() => self.tree()->Object_0[i as int].1));
                    out.push((m[i].0.clone(), m[i].1.copy()));
                    i = i + 1;
                }
                let r = Json::Object(out);
                assert(r.tree()->Object_0 =~= self.tree()->Object_0);
                r
            },
        }
    }

    /// Reads a JSON text.
    pub fn read(text: &str) -> (r: Result<Json, serde_json::Error>)
        ensures
            match r {
                Ok(j) => json_tree(text@) == Some(j.tree()),
                Err(_) => json_tree(text@) is None,
            },
    {
        match value_from_str(text) {
            Ok(v) => Ok(json_of(&v)),
            Err(e) => Err(e),
        }
    }
}

/// A JSON document as it came over the wire, with the compact text it prints as.
pub struct Reply {
    pub json: Json,
    pub compact: String,
}

impl Reply {
    /// Reads a JSON text.
    pub fn read(text: &str) -> (r: Result<Reply, serde_json::Error>)
        ensures
            match r {
                Ok(d) => json_tree(text@) == Some(d.json.tree()) && d.compact@ == json_text(
                    d.json.tree(),
                ),
                Err(_) => json_tree(text@) is None,
            },
    {
        match value_from_str(text) {
            Ok(v) => Ok(Reply { json: json_of(&v), compact: value_to_string(&v) }),
            Err(e) => Err(e),
        }
    }
}

/// The value of a member of an object that is about to be sent.
pub enum Field {
    Null,
    Bool(bool),
    Int(i64),
    Text(String),
    Texts(Vec<String>),
}

impl Field {
    /// The model of this value.
    pub open spec fn tree(self) -> JsonTree {
        match self {
            Field::Null => JsonTree::Null,
            Field::Bool(b) => JsonTree::Bool(b),
            Field::Int(i) => JsonTree::Int(i as int),
            Field::Text(s) => JsonTree::Text(s@),
            Field::Texts(v) => texts_tree(texts(v@)),
        }
    }
}

/// A list of texts as a JSON array.
pub open spec fn texts_tree(v: Seq<Seq<char>>) -> JsonTree {
    JsonTree::Array(v.map_values(|s: Seq<char>| JsonTree::Text(s)))
}

/// The models of the members of an object.
pub open spec fn members_tree(members: Seq<(&str, Field)>) -> Seq<(Seq<char>, JsonTree)> {
    members.map_values(|m: (&str, Field)| (m.0@, m.1.tree()))
}

/// The compact text of an object with these members.
pub fn object_text(members: Vec<(&str, Field)>) -> (r: String)
    ensures
        r@ == json_text(JsonTree::Object(members_tree(members@))),
        !r@.contains('\n'),
{
    object_to_string(&members)
}

} // verus!
