//! A JSON document as plain data, with verified lookups.
//!
//! Parsing is done by serde_json behind one trusted wrapper; everything the
//! library reads out of a document goes through the verified accessors here.
use vstd::prelude::*;

verus! {

/// A parsed JSON document. Object members are kept in the order the parser
/// hands them out (sorted by key); a number is kept as its decimal rendering,
/// since no rule of this library reads numeric values.
#[derive(Debug)]
pub enum JsonNode {
    Null,
    Bool(bool),
    Num(String),
    Str(String),
    Arr(Vec<JsonNode>),
    Obj(Vec<(String, JsonNode)>),
}

/// The first member of `ms` named `key`, if any.
pub open spec fn obj_lookup(ms: Seq<(String, JsonNode)>, key: Seq<char>) -> Option<JsonNode>
    decreases ms.len(),
{
    if ms.len() == 0 {
        None
    } else if ms[0].0@ == key {
        Some(ms[0].1)
    } else {
        obj_lookup(ms.skip(1), key)
    }
}

impl JsonNode {
    /// The member named `key`, when `self` is an object that has one.
    pub open spec fn spec_get(self, key: Seq<char>) -> Option<JsonNode> {
        match self {
            JsonNode::Obj(ms) => obj_lookup(ms@, key),
            _ => None,
        }
    }

    /// The string content, when `self` is a string.
    pub open spec fn spec_as_str(self) -> Option<Seq<char>> {
        match self {
            JsonNode::Str(s) => Some(s@),
            _ => None,
        }
    }

    /// Look up the member named `key` of an object.
    #[verifier::loop_isolation(false)]
    pub fn get<'a>(&'a self, key: &str) -> (r: Option<&'a JsonNode>)
        ensures
            match r {
                Some(n) => self.spec_get(key@) == Some(*n),
                None => self.spec_get(key@) is None,
            },
    {
        match self {
            JsonNode::Obj(ms) => {
                proof {
                    assert(ms@.skip(0) =~= ms@);
                }
                let mut i: usize = 0;
                while i < ms.len()
                    invariant
                        0 <= i <= ms@.len(),
                        forall|k: int| 0 <= k < i ==> ms@[k].0@ != key@,
                        obj_lookup(ms@, key@) == obj_lookup(ms@.skip(i as int), key@),
                    decreases ms@.len() - i,
                {
                    if crate::text::str_eq(ms[i].0.as_str(), key) {
                        proof {
                            assert(ms@.skip(i as int)[0] == ms@[i as int]);
                            assert(obj_lookup(ms@.skip(i as int), key@) == Some(
                                ms@[i as int].1,
                            ));
                        }
                        return Some(&ms[i].1);
                    }
                    proof {
                        assert(ms@.skip(i as int)[0] == ms@[i as int]);
                        assert(ms@.skip(i as int).skip(1) =~= ms@.skip(i + 1));
                    }
                    i = i + 1;
                }
                None
            },
            _ => None,
        }
    }

    /// View `self` as a string.
    pub fn as_str(&self) -> (r: Option<&String>)
        ensures
            match r {
                Some(s) => self.spec_as_str() == Some(s@),
                None => self.spec_as_str() is None,
            },
    {
        match self {
            JsonNode::Str(s) => Some(s),
            _ => None,
        }
    }

    /// The member named `key`, when it is a string.
    pub open spec fn spec_get_str(self, key: Seq<char>) -> Option<Seq<char>> {
        match self.spec_get(key) {
            Some(n) => n.spec_as_str(),
            None => None,
        }
    }

    /// Look up the member named `key` and view it as a string.
    pub fn get_str<'a>(&'a self, key: &str) -> (r: Option<&'a String>)
        ensures
            match r {
                Some(s) => self.spec_get_str(key@) == Some(s@),
                None => self.spec_get_str(key@) is None,
            },
    {
        match self.get(key) {
            Some(n) => n.as_str(),
            None => None,
        }
    }
}

/// What parsing a line as JSON yields: the abstraction of
/// `serde_json::from_str::<serde_json::Value>`, which is a function of the
/// text alone (object members come out sorted by key, numbers as their
/// decimal rendering).
pub uninterp spec fn json_doc_of(s: Seq<char>) -> Option<JsonNode>;

#[verifier::external_type_specification]
#[verifier::external_body]
pub struct ExJsonValue(serde_json::Value);

/// Relies on the shape of `serde_json::Value` alone: each variant is moved
/// into the matching `JsonNode` variant, a number through its decimal
/// rendering (`serde_json::Number::to_string`).
#[verifier::external_body]
fn abstract_json(v: serde_json::Value) -> JsonNode {
    match v {
        serde_json::Value::Null => JsonNode::Null,
        serde_json::Value::Bool(b) => JsonNode::Bool(b),
        serde_json::Value::Number(n) => JsonNode::Num(n.to_string()),
        serde_json::Value::String(s) => JsonNode::Str(s),
        serde_json::Value::Array(a) => JsonNode::Arr(a.into_iter().map(abstract_json).collect()),
        serde_json::Value::Object(m) => JsonNode::Obj(
            m.into_iter().map(|(k, inner)| (k, abstract_json(inner))).collect(),
        ),
    }
}

/// Relies on `serde_json::from_str::<serde_json::Value>`: deterministic in the
/// text, `Ok` exactly on well-formed JSON; the result is abstracted by
/// `abstract_json` and named `json_doc_of`.
#[verifier::external_body]
pub fn parse_json(line: &str) -> (r: Option<JsonNode>)
    ensures
        r == json_doc_of(line@),
{
    match serde_json::from_str::<serde_json::Value>(line) {
        Ok(v) => Some(abstract_json(v)),
        Err(_) => None,
    }
}

} // verus!

verus! {

/// Find the first member named `key`.
pub fn find_key(ms: &Vec<(String, JsonNode)>, key: &str) -> (r: Option<usize>)
    ensures
        match r {
            Some(i) => i < ms@.len() && ms@[i as int].0@ == key@ && forall|j: int|
                0 <= j < i ==> ms@[j].0@ != key@,
            None => forall|j: int| 0 <= j < ms@.len() ==> ms@[j].0@ != key@,
        },
{
    let mut i: usize = 0;
    while i < ms.len()
        invariant
            0 <= i <= ms@.len(),
            forall|j: int| 0 <= j < i ==> ms@[j].0@ != key@,
        decreases ms@.len() - i,
    {
        if crate::text::str_eq(ms[i].0.as_str(), key) {
            return Some(i);
        }
        i = i + 1;
    }
    None
}

pub proof fn lemma_obj_lookup_update(ms: Seq<(String, JsonNode)>, i: int, p: (String, JsonNode), k: Seq<char>)
    requires
        0 <= i < ms.len(),
        ms[i].0@ == p.0@,
        forall|j: int| 0 <= j < i ==> ms[j].0@ != p.0@,
    ensures
        obj_lookup(ms.update(i, p), k) == if k == p.0@ {
            Some(p.1)
        } else {
            obj_lookup(ms, k)
        },
    decreases i,
{
    if i == 0 {
        assert(ms.update(0, p)[0] == p);
        if k != p.0@ {
            assert(ms.update(0, p).skip(1) =~= ms.skip(1));
        }
    } else {
        assert(ms.update(i, p)[0] == ms[0]);
        assert(ms.update(i, p).skip(1) =~= ms.skip(1).update(i - 1, p));
        lemma_obj_lookup_update(ms.skip(1), i - 1, p, k);
    }
}

pub proof fn lemma_obj_lookup_push(ms: Seq<(String, JsonNode)>, p: (String, JsonNode), k: Seq<char>)
    requires
        forall|j: int| 0 <= j < ms.len() ==> ms[j].0@ != p.0@,
    ensures
        obj_lookup(ms.push(p), k) == if k == p.0@ {
            Some(p.1)
        } else {
            obj_lookup(ms, k)
        },
    decreases ms.len(),
{
    if ms.len() == 0 {
        assert(ms.push(p)[0] == p);
        assert(obj_lookup(ms, k) is None);
        if k != p.0@ {
            assert(ms.push(p).skip(1) =~= Seq::<(String, JsonNode)>::empty());
            assert(obj_lookup(Seq::<(String, JsonNode)>::empty(), k) is None);
        }
    } else {
        assert(ms.push(p)[0] == ms[0]);
        assert(ms.push(p).skip(1) =~= ms.skip(1).push(p));
        lemma_obj_lookup_push(ms.skip(1), p, k);
        assert(obj_lookup(ms.push(p), k) == if ms[0].0@ == k {
            Some(ms[0].1)
        } else {
            obj_lookup(ms.skip(1).push(p), k)
        });
        assert(obj_lookup(ms, k) == if ms[0].0@ == k {
            Some(ms[0].1)
        } else {
            obj_lookup(ms.skip(1), k)
        });
    }
}

/// Replace the value of the first member named `key`, or append one.
pub fn obj_set(ms: &mut Vec<(String, JsonNode)>, key: &str, value: JsonNode)
    ensures
        obj_lookup(final(ms)@, key@) == Some(value),
        forall|k: Seq<char>| k != key@ ==> obj_lookup(final(ms)@, k) == obj_lookup(old(ms)@, k),
{
    let ghost value_snapshot = value;
    match find_key(ms, key) {
        Some(i) => {
            let (_, _) = ms.remove(i);
            ms.insert(i, (key.to_owned(), value));
            proof {
                let p = final(ms)@[i as int];
                assert(final(ms)@ =~= old(ms)@.update(i as int, p));
                assert(p.1 == value_snapshot);
                assert forall|k: Seq<char>| true implies obj_lookup(
                    old(ms)@.update(i as int, p),
                    k,
                ) == if k == p.0@ {
                    Some(p.1)
                } else {
                    obj_lookup(old(ms)@, k)
                } by {
                    lemma_obj_lookup_update(old(ms)@, i as int, p, k);
                }
            }
        },
        None => {
            ms.push((key.to_owned(), value));
            proof {
                let p = final(ms)@[final(ms)@.len() - 1];
                assert(final(ms)@ =~= old(ms)@.push(p));
                assert(p.1 == value_snapshot);
                assert forall|k: Seq<char>| true implies obj_lookup(old(ms)@.push(p), k) == if k
                    == p.0@ {
                    Some(p.1)
                } else {
                    obj_lookup(old(ms)@, k)
                } by {
                    lemma_obj_lookup_push(old(ms)@, p, k);
                }
            }
        },
    }
}

} // verus!

verus! {

/// The first match is what `obj_lookup` yields.
pub proof fn lemma_obj_lookup_at(ms: Seq<(String, JsonNode)>, i: int, k: Seq<char>)
    requires
        0 <= i < ms.len(),
        ms[i].0@ == k,
        forall|j: int| 0 <= j < i ==> ms[j].0@ != k,
    ensures
        obj_lookup(ms, k) == Some(ms[i].1),
    decreases i,
{
    if i > 0 {
        lemma_obj_lookup_at(ms.skip(1), i - 1, k);
        assert(ms.skip(1)[i - 1] == ms[i]);
    }
}

/// A key that no member carries is not found.
pub proof fn lemma_obj_lookup_absent(ms: Seq<(String, JsonNode)>, k: Seq<char>)
    requires
        forall|j: int| 0 <= j < ms.len() ==> ms[j].0@ != k,
    ensures
        obj_lookup(ms, k) is None,
    decreases ms.len(),
{
    if ms.len() > 0 {
        lemma_obj_lookup_absent(ms.skip(1), k);
    }
}

} // verus!
