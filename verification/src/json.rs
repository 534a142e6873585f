//! The library's own model of a JSON value, and field lookup in JSON objects.
//!
//! The scanner's output protocol is JSON over stdout. The external parser
//! turns the raw text into this model; all shape-checking logic then works on
//! it and is verified.

use vstd::prelude::*;

verus! {

/// A JSON number, as far as this library reads one: the record fields it
/// decodes are unsigned integers, so any other number (negative, fractional,
/// or out of range) is kept only as present-but-unusable.
#[derive(Debug, Clone, PartialEq)]
pub enum JsonNum {
    /// A number that is exactly a non-negative integer within `u64`.
    UInt(u64),
    /// Any other number; its value is never read.
    Other,
}

/// A JSON value.
///
/// An object keeps its fields as a sequence of key/value pairs in emission
/// order; when a key repeats, the last occurrence wins, as it does in the
/// external parser.
#[derive(Debug, PartialEq)]
pub enum Json {
    Null,
    Bool(bool),
    Num(JsonNum),
    Str(String),
    Arr(Vec<Json>),
    Obj(Vec<(String, Json)>),
}

/// Look a key up among an object's fields: the value of its last occurrence,
/// or `None` when the key is absent.
pub open spec fn jfield(fields: Seq<(String, Json)>, key: Seq<char>) -> Option<Json>
    decreases fields.len(),
{
    if fields.len() == 0 {
        None
    } else if fields.last().0@ == key {
        Some(fields.last().1)
    } else {
        jfield(fields.drop_last(), key)
    }
}

/// Appending a field under the looked-up key makes that field the result.
pub proof fn lemma_jfield_push_hit(fields: Seq<(String, Json)>, k: String, v: Json, key: Seq<char>)
    requires
        k@ == key,
    ensures
        jfield(fields.push((k, v)), key) == Some(v),
{
}

/// Appending a field under a different key leaves a lookup unchanged.
pub proof fn lemma_jfield_push_miss(fields: Seq<(String, Json)>, k: String, v: Json, key: Seq<char>)
    requires
        k@ != key,
    ensures
        jfield(fields.push((k, v)), key) == jfield(fields, key),
{
    assert(fields.push((k, v)).drop_last() =~= fields);
}

/// Exact field lookup, proved against `jfield`.
pub fn get_field<'a>(fields: &'a Vec<(String, Json)>, key: &str) -> (r: Option<&'a Json>)
    ensures
        match r {
            Some(j) => jfield(fields@, key@) == Some(*j),
            None => jfield(fields@, key@) is None,
        },
{
    let mut i: usize = fields.len();
    proof {
        assert(fields@.subrange(0, fields@.len() as int) =~= fields@);
    }
    while i > 0
        invariant
            i <= fields@.len(),
            jfield(fields@, key@) == jfield(fields@.subrange(0, i as int), key@),
        decreases i,
    {
        i = i - 1;
        proof {
            assert(fields@.subrange(0, i + 1).drop_last() =~= fields@.subrange(0, i as int));
            assert(fields@.subrange(0, i + 1).last() == fields@[i as int]);
        }
        if crate::outside::str_eq(fields[i].0.as_str(), key) {
            return Some(&fields[i].1);
        }
    }
    proof {
        assert(fields@.subrange(0, 0) =~= Seq::<(String, Json)>::empty());
    }
    None
}

} // verus!
