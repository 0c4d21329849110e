use vstd::prelude::*;
use crate::text::{owned, str_eq};

verus! {

/// A JSON document as it arrived on the wire. A number keeps the text it was
/// written with, so that nothing is lost before a field decides how to read it.
#[derive(Debug)]
pub enum JsonValue {
    Null,
    Bool(bool),
    Number(String),
    Str(String),
    Array(Vec<JsonValue>),
    Object(Vec<(String, JsonValue)>),
}

/// The value of the first member named `key`.
pub open spec fn lookup(fields: Seq<(String, JsonValue)>, key: Seq<char>) -> Option<JsonValue>
    decreases fields.len(),
{
    if fields.len() == 0 {
        None
    } else if fields[0].0@ == key {
        Some(fields[0].1)
    } else {
        lookup(fields.drop_first(), key)
    }
}

impl JsonValue {
    /// The member named `key` of an object; nothing for any other value.
    pub open spec fn spec_get(self, key: Seq<char>) -> Option<JsonValue> {
        match self {
            JsonValue::Object(fields) => lookup(fields@, key),
            _ => None,
        }
    }

    /// The name of the value's JSON type, as error messages give it.
    pub open spec fn spec_kind(self) -> Seq<char> {
        match self {
            JsonValue::Null => "null"@,
            JsonValue::Bool(_) => "bool"@,
            JsonValue::Number(_) => "number"@,
            JsonValue::Str(_) => "string"@,
            JsonValue::Array(_) => "array"@,
            JsonValue::Object(_) => "object"@,
        }
    }

    /// The member named `key` of an object; `None` for a missing member and for
    /// a value that is no object.
    pub fn get(&self, key: &str) -> (r: Option<&JsonValue>)
        ensures
            match r {
                Some(x) => self.spec_get(key@) == Some(*x),
                None => self.spec_get(key@) is None,
            },
    {
        match self {
            JsonValue::Object(fields) => {
                let n = fields.len();
                let mut i: usize = 0;
                assert(fields@.subrange(0, n as int) =~= fields@);
                while i < n
                    invariant
                        n == fields@.len(),
                        i <= n,
                        self.spec_get(key@) == lookup(fields@.subrange(i as int, n as int), key@),
                    decreases n - i,
                {
                    let ghost rest = fields@.subrange(i as int, n as int);
                    assert(rest.drop_first() =~= fields@.subrange(i + 1, n as int));
                    assert(rest[0] == fields@[i as int]);
                    if str_eq(fields[i].0.as_str(), key) {
                        let found = &fields[i].1;
                        assert(lookup(rest, key@) == Some(fields@[i as int].1));
                        assert(self.spec_get(key@) == Some(*found));
                        return Some(found);
                    }
                    i = i + 1;
                }
                None
            },
            _ => None,
        }
    }

    /// The name of the value's JSON type.
    pub fn kind(&self) -> (r: String)
        ensures
            r@ == self.spec_kind(),
    {
        match self {
            JsonValue::Null => owned("null"),
            JsonValue::Bool(_) => owned("bool"),
            JsonValue::Number(_) => owned("number"),
            JsonValue::Str(_) => owned("string"),
            JsonValue::Array(_) => owned("array"),
            JsonValue::Object(_) => owned("object"),
        }
    }
}

} // verus!
