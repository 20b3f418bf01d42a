use vstd::prelude::*;

verus! {

/// A JSON document as the lookup service and the snapshot format use it.
/// `Int` holds a number that is an integer within `i64`; `OtherNumber` stands for any other number.
pub enum JsonValue {
    Null,
    Bool(bool),
    Int(i64),
    OtherNumber,
    Str(String),
    Array(Vec<JsonValue>),
    Object(Vec<(String, JsonValue)>),
}

/// The value under the first entry of `entries` whose key is `key`.
pub open spec fn lookup(entries: Seq<(String, JsonValue)>, key: Seq<char>) -> Option<JsonValue>
    decreases entries.len(),
{
    if entries.len() == 0 {
        None
    } else if entries[0].0@ == key {
        Some(entries[0].1)
    } else {
        lookup(entries.drop_first(), key)
    }
}

/// What `v[key]` names: the entry's value where `v` is an object that has the key.
pub open spec fn spec_get(v: JsonValue, key: Seq<char>) -> Option<JsonValue> {
    match v {
        JsonValue::Object(entries) => lookup(entries@, key),
        _ => None,
    }
}

/// The text of a string value, and the empty text for any other value.
pub open spec fn text_of(v: JsonValue) -> Seq<char> {
    match v {
        JsonValue::Str(s) => s@,
        _ => Seq::empty(),
    }
}

/// The text of a value that may be missing; empty where it is missing or not a string.
pub open spec fn text_of_opt(v: Option<JsonValue>) -> Seq<char> {
    match v {
        Some(x) => text_of(x),
        None => Seq::empty(),
    }
}

impl JsonValue {
    /// The value under `key`, where `self` is an object holding it.
    pub fn get(&self, key: &str) -> (r: Option<&JsonValue>)
        ensures
            match r {
                Some(x) => spec_get(*self, key@) == Some(*x),
                None => spec_get(*self, key@) is None,
            },
    {
        match self {
            JsonValue::Object(entries) => {
                let wanted = String::from_str(key);
                let mut i: usize = 0;
                assert(entries@.subrange(0, entries@.len() as int) =~= entries@);
                while i < entries.len()
                    invariant
                        i <= entries@.len(),
                        wanted@ == key@,
                        spec_get(*self, key@) == lookup(entries@.subrange(i as int, entries@.len() as int), key@),
                    decreases entries@.len() - i,
                {
                    let ghost tail = entries@.subrange(i as int, entries@.len() as int);
                    assert(tail.drop_first() =~= entries@.subrange(i + 1, entries@.len() as int));
                    assert(tail[0] == entries@[i as int]);
                    if entries[i].0 == wanted {
                        return Some(&entries[i].1);
                    }
                    i += 1;
                }
                None
            },
            _ => None,
        }
    }
}

} // verus!
