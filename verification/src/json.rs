//! A plain model of parsed JSON values.
//!
//! The rules, validators and the client wire protocol all read semi-structured
//! JSON. Parsing is done by serde_json behind a trusted boundary; everything
//! that inspects the parsed value works on [`JsonNode`] and is verified.

use vstd::prelude::*;
use crate::text::str_eq;

verus! {

/// A parsed JSON value. Numbers keep their value only when they are
/// representable as a signed 64-bit integer, which is all the protocol uses.
#[derive(Debug, PartialEq)]
pub enum JsonNode {
    Null,
    Bool(bool),
    Num(Option<i64>),
    Str(String),
    Arr(Vec<JsonNode>),
    Obj(Vec<(String, JsonNode)>),
}

/// The value under the first binding of `key` in the object fields `fields`.
pub open spec fn spec_obj_get(fields: Seq<(String, JsonNode)>, key: Seq<char>) -> Option<JsonNode>
    decreases fields.len(),
{
    if fields.len() == 0 {
        None
    } else if fields[0].0@ == key {
        Some(fields[0].1)
    } else {
        spec_obj_get(fields.skip(1), key)
    }
}

impl JsonNode {
    /// The value of a member of this object, or None when this is not an
    /// object or has no such member.
    pub open spec fn spec_get(self, key: Seq<char>) -> Option<JsonNode> {
        match self {
            JsonNode::Obj(fields) => spec_obj_get(fields@, key),
            _ => None,
        }
    }

    pub open spec fn spec_is_object(self) -> bool {
        self is Obj
    }

    pub open spec fn spec_is_array(self) -> bool {
        self is Arr
    }

    pub open spec fn spec_is_string(self) -> bool {
        self is Str
    }

    pub open spec fn spec_is_bool(self) -> bool {
        self is Bool
    }

    pub fn is_object(&self) -> (r: bool)
        ensures
            r == self.spec_is_object(),
    {
        match self {
            JsonNode::Obj(_) => true,
            _ => false,
        }
    }

    pub fn is_array(&self) -> (r: bool)
        ensures
            r == self.spec_is_array(),
    {
        match self {
            JsonNode::Arr(_) => true,
            _ => false,
        }
    }

    pub fn is_string(&self) -> (r: bool)
        ensures
            r == self.spec_is_string(),
    {
        match self {
            JsonNode::Str(_) => true,
            _ => false,
        }
    }

    pub fn is_bool(&self) -> (r: bool)
        ensures
            r == self.spec_is_bool(),
    {
        match self {
            JsonNode::Bool(_) => true,
            _ => false,
        }
    }

    /// The string content when this is a string value.
    pub fn as_str(&self) -> (r: Option<&String>)
        ensures
            (match self {
                JsonNode::Str(s) => r == Some(s),
                _ => r is None,
            }),
    {
        match self {
            JsonNode::Str(s) => Some(s),
            _ => None,
        }
    }

    /// The boolean content when this is a boolean value.
    pub fn as_bool(&self) -> (r: Option<bool>)
        ensures
            (match self {
                JsonNode::Bool(b) => r == Some(*b),
                _ => r is None,
            }),
    {
        match self {
            JsonNode::Bool(b) => Some(*b),
            _ => None,
        }
    }

    /// The integer content when this is an integral number.
    pub fn as_i64(&self) -> (r: Option<i64>)
        ensures
            (match self {
                JsonNode::Num(n) => r == n,
                _ => r is None,
            }),
    {
        match self {
            JsonNode::Num(n) => *n,
            _ => None,
        }
    }

    /// The elements when this is an array.
    pub fn as_array(&self) -> (r: Option<&Vec<JsonNode>>)
        ensures
            (match self {
                JsonNode::Arr(items) => r == Some(items),
                _ => r is None,
            }),
    {
        match self {
            JsonNode::Arr(items) => Some(items),
            _ => None,
        }
    }

    /// Look a member up by key when this is an object.
    #[verifier::loop_isolation(false)]
    pub fn get(&self, key: &str) -> (r: Option<&JsonNode>)
        ensures
            (match r {
                Some(v) => self.spec_get(key@) == Some(*v),
                None => self.spec_get(key@) is None,
            }),
    {
        match self {
            JsonNode::Obj(fields) => {
                proof {
                    assert(self.spec_get(key@) == spec_obj_get(fields@, key@));
                }
                let n = fields.len();
                let mut i: usize = 0;
                proof {
                    assert(fields@.skip(0) =~= fields@);
                }
                while i < n
                    invariant
                        n == fields@.len(),
                        i <= n,
                        self.spec_get(key@) == spec_obj_get(fields@, key@),
                        spec_obj_get(fields@, key@) == spec_obj_get(fields@.skip(i as int), key@),
                    decreases n - i,
                {
                    proof {
                        assert(fields@.skip(i as int)[0] == fields@[i as int]);
                        assert(fields@.skip(i as int).skip(1) =~= fields@.skip(i + 1));
                    }
                    let entry = &fields[i];
                    proof {
                        assert(*entry == fields@[i as int]);
                    }
                    if str_eq(entry.0.as_str(), key) {
                        proof {
                            assert(spec_obj_get(fields@.skip(i as int), key@)
                                == Some(fields@[i as int].1));
                            assert(self.spec_get(key@) == Some(entry.1));
                        }
                        return Some(&entry.1);
                    }
                    i = i + 1;
                }
                proof {
                    assert(fields@.skip(n as int) =~= Seq::<(String, JsonNode)>::empty());
                }
                None
            },
            _ => None,
        }
    }
}

/// Splitting a field list: the first binding is in the front part when it
/// has one, else in the back part.
pub proof fn lemma_obj_get_concat(s: Seq<(String, JsonNode)>, t: Seq<(String, JsonNode)>, key: Seq<char>)
    ensures
        spec_obj_get(s.add(t), key) == (match spec_obj_get(s, key) {
            Some(v) => Some(v),
            None => spec_obj_get(t, key),
        }),
    decreases s.len(),
{
    if s.len() == 0 {
        assert(s.add(t) =~= t);
    } else {
        assert(s.add(t)[0] == s[0]);
        if s[0].0@ == key {
        } else {
            assert(s.add(t).skip(1) =~= s.skip(1).add(t));
            lemma_obj_get_concat(s.skip(1), t, key);
        }
    }
}

/// One step of a first-binding scan: looking a key up in one more entry.
pub proof fn lemma_obj_get_take_step(all: Seq<(String, JsonNode)>, seen: int, key: Seq<char>)
    requires
        0 <= seen < all.len(),
    ensures
        spec_obj_get(all.take(seen + 1), key) == (match spec_obj_get(all.take(seen), key) {
            Some(v) => Some(v),
            None => if all[seen].0@ == key {
                Some(all[seen].1)
            } else {
                None
            },
        }),
    decreases seen,
{
    if seen == 0 {
        assert(all.take(0) =~= Seq::<(String, JsonNode)>::empty());
        assert(all.take(1)[0] == all[0]);
        assert(all.take(1).skip(1) =~= Seq::<(String, JsonNode)>::empty());
    } else {
        let t1 = all.take(seen + 1);
        let t0 = all.take(seen);
        assert(t1[0] == all[0]);
        assert(t0[0] == all[0]);
        if all[0].0@ == key {
        } else {
            assert(t1.skip(1) =~= all.skip(1).take(seen));
            assert(t0.skip(1) =~= all.skip(1).take(seen - 1));
            lemma_obj_get_take_step(all.skip(1), seen - 1, key);
            assert(all.skip(1)[seen - 1] == all[seen]);
        }
    }
}

/// What serde_json parses a text to, mapped onto [`JsonNode`]: None when the
/// text is not valid JSON.
pub uninterp spec fn json_of(s: Seq<char>) -> Option<JsonNode>;

/// serde_json's value type, opaque to the verifier; it only passes through
/// the conversion below.
#[verifier::external_type_specification]
#[verifier::external_body]
pub struct ExJsonValue(serde_json::Value);

/// Relies on serde_json: converts a parsed value variant by variant. Numbers
/// keep their value only when integral and in range for i64.
#[verifier::external_body]
fn node_of_value(v: &serde_json::Value) -> JsonNode {
    match v {
        serde_json::Value::Null => JsonNode::Null,
        serde_json::Value::Bool(b) => JsonNode::Bool(*b),
        serde_json::Value::Number(n) => JsonNode::Num(n.as_i64()),
        serde_json::Value::String(s) => JsonNode::Str(s.clone()),
        serde_json::Value::Array(a) => JsonNode::Arr(a.iter().map(node_of_value).collect()),
        serde_json::Value::Object(m) => JsonNode::Obj(
            m.iter().map(|(k, x)| (k.clone(), node_of_value(x))).collect(),
        ),
    }
}

/// Relies on serde_json::from_str: whether a text parses, and to what value,
/// depend on the text alone.
#[verifier::external_body]
pub fn parse_json(s: &str) -> (r: Option<JsonNode>)
    ensures
        r == json_of(s@),
{
    match serde_json::from_str::<serde_json::Value>(s) {
        Ok(v) => Some(node_of_value(&v)),
        Err(_) => None,
    }
}

} // verus!
