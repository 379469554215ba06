//! A structured document as read from the backing store.
use vstd::prelude::*;

verus! {

/// A JSON value. Numbers that are integers within `i64` keep their value;
/// any other number is only known to be a number.
#[derive(Debug)]
pub enum Json {
    Null,
    Bool(bool),
    Int(i64),
    OtherNumber,
    Str(String),
    Array(Vec<Json>),
    Object(Vec<(String, Json)>),
}

/// The value under `key` among `fields`: the first entry with that key.
pub open spec fn field_of(fields: Seq<(String, Json)>, key: Seq<char>) -> Option<Json>
    decreases fields.len(),
{
    if fields.len() == 0 {
        None
    } else if fields[0].0@ == key {
        Some(fields[0].1)
    } else {
        field_of(fields.drop_first(), key)
    }
}

/// The value under `key`, where `j` is an object that has it.
pub open spec fn member(j: Json, key: Seq<char>) -> Option<Json> {
    match j {
        Json::Object(fields) => field_of(fields@, key),
        _ => None,
    }
}

/// Looks up `key` among the fields of `j`.
pub fn get<'a>(j: &'a Json, key: &str) -> (r: Option<&'a Json>)
    ensures
        match r {
            Some(v) => member(*j, key@) == Some(*v),
            None => member(*j, key@) is None,
        },
{
    match j {
        Json::Object(fields) => {
            let k = key.to_owned();
            let mut i: usize = 0;
            assert(fields@.subrange(0, fields@.len() as int) =~= fields@);
            while i < fields.len()
                invariant
                    i <= fields@.len(),
                    k@ == key@,
                    member(*j, key@) == field_of(fields@, key@),
                    field_of(fields@, key@) == field_of(fields@.subrange(i as int, fields@.len() as int), key@),
                decreases fields@.len() - i,
            {
                let ghost rest = fields@.subrange(i as int, fields@.len() as int);
                assert(rest[0] == fields@[i as int]);
                if fields[i].0 == k {
                    return Some(&fields[i].1);
                }
                assert(rest.drop_first() =~= fields@.subrange(i + 1, fields@.len() as int));
                i = i + 1;
            }
            None
        },
        _ => None,
    }
}

} // verus!
