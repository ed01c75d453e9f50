//! A minimal model of a decoded JSON document: just enough structure for the
//! shapes the remote endpoint is known to emit. Values the pipeline never
//! inspects (non-integer numbers, integers outside `i64`) are collapsed into
//! `Other`.

use vstd::prelude::*;

verus! {

/// One decoded JSON value. Objects keep their fields in document order;
/// a key is looked up by its first occurrence.
pub enum JsonValue {
    Null,
    Bool(bool),
    Int(i64),
    Text(String),
    Array(Vec<JsonValue>),
    Object(Vec<(String, JsonValue)>),
    Other,
}

/// The value of the first field named `key`, if any.
pub open spec fn lookup_field(fields: Seq<(String, JsonValue)>, key: Seq<char>) -> Option<JsonValue>
    decreases fields.len(),
{
    if fields.len() == 0 {
        None
    } else if fields[0].0@ == key {
        Some(fields[0].1)
    } else {
        lookup_field(fields.skip(1), key)
    }
}

/// The value of the first field named `key` of an object; `None` on any
/// other kind of value.
pub open spec fn spec_field(j: JsonValue, key: Seq<char>) -> Option<JsonValue> {
    match j {
        JsonValue::Object(fields) => lookup_field(fields@, key),
        _ => None,
    }
}

/// The string content of field `key`, when present and textual.
pub open spec fn spec_str_field(j: JsonValue, key: Seq<char>) -> Option<Seq<char>> {
    match spec_field(j, key) {
        Some(JsonValue::Text(s)) => Some(s@),
        _ => None,
    }
}

/// The integer content of field `key`, when present and integral.
pub open spec fn spec_int_field(j: JsonValue, key: Seq<char>) -> Option<int> {
    match spec_field(j, key) {
        Some(JsonValue::Int(n)) => Some(n as int),
        _ => None,
    }
}

/// First field of `fields` named `key`, by linear scan in document order.
pub fn get_field<'a>(fields: &'a Vec<(String, JsonValue)>, key: &str) -> (r: Option<&'a JsonValue>)
    ensures
        match r {
            Some(v) => lookup_field(fields@, key@) == Some(*v),
            None => lookup_field(fields@, key@) is None,
        },
{
    let k: String = key.to_owned();
    let mut i: usize = 0;
    proof {
        assert(fields@.skip(0) =~= fields@);
    }
    while i < fields.len()
        invariant
            0 <= i <= fields@.len(),
            k@ == key@,
            lookup_field(fields@, key@) == lookup_field(fields@.skip(i as int), key@),
        decreases fields@.len() - i,
    {
        if fields[i].0 == k {
            proof {
                assert(fields@.skip(i as int)[0] == fields@[i as int]);
            }
            return Some(&fields[i].1);
        }
        proof {
            assert(fields@.skip(i as int)[0] == fields@[i as int]);
            assert(fields@.skip(i as int).skip(1) =~= fields@.skip(i as int + 1));
        }
        i = i + 1;
    }
    proof {
        assert(fields@.skip(i as int) =~= Seq::<(String, JsonValue)>::empty());
    }
    None
}

/// Field lookup on a whole value: the object case of `spec_field`.
pub fn value_field<'a>(j: &'a JsonValue, key: &str) -> (r: Option<&'a JsonValue>)
    ensures
        match r {
            Some(v) => spec_field(*j, key@) == Some(*v),
            None => spec_field(*j, key@) is None,
        },
{
    match j {
        JsonValue::Object(fields) => get_field(fields, key),
        _ => None,
    }
}

} // verus!
