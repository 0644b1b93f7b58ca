use vstd::prelude::*;

verus! {

/// A number of a JSON document, as the logic reads it: the value cast to `u64` (the way
/// a float is cast: negative values and NaN give 0, values past the range `u64::MAX`,
/// fractions are cut off), and the bits of the value as an `f64`.
#[derive(Debug, Clone, Copy, PartialEq, Eq, Structural)]
pub struct JsonNumber {
    pub as_u64: u64,
    pub f64_bits: u64,
}

/// A JSON document. The keys of an object are distinct.
#[derive(Debug)]
pub enum JsonValue {
    Null,
    Bool(bool),
    Number(JsonNumber),
    String(String),
    Array(Vec<JsonValue>),
    Object(Vec<(String, JsonValue)>),
}

/// The value under `key` among the entries of an object, or `Null` where there is none.
pub open spec fn lookup(entries: Seq<(String, JsonValue)>, key: Seq<char>) -> JsonValue
    decreases entries.len(),
{
    if entries.len() == 0 {
        JsonValue::Null
    } else if entries[0].0@ == key {
        entries[0].1
    } else {
        lookup(entries.drop_first(), key)
    }
}

/// `v[key]`: the value under `key` where `v` is an object that has one, else `Null`.
pub open spec fn at_key(v: JsonValue, key: Seq<char>) -> JsonValue {
    match v {
        JsonValue::Object(entries) => lookup(entries@, key),
        _ => JsonValue::Null,
    }
}

/// `v[i]`: the `i`th item where `v` is an array that long, else `Null`.
pub open spec fn at_index(v: JsonValue, i: int) -> JsonValue {
    match v {
        JsonValue::Array(items) => if 0 <= i < items@.len() {
            items@[i]
        } else {
            JsonValue::Null
        },
        _ => JsonValue::Null,
    }
}

/// The value that an optional reference stands for, missing values standing for `Null`.
pub open spec fn or_null(v: Option<&JsonValue>) -> JsonValue {
    match v {
        Some(x) => *x,
        None => JsonValue::Null,
    }
}

/// The text of a string value.
pub open spec fn text_of(v: JsonValue) -> Option<Seq<char>> {
    match v {
        JsonValue::String(s) => Some(s@),
        _ => None,
    }
}

fn lookup_entries<'a>(entries: &'a Vec<(String, JsonValue)>, key: &str) -> (r: Option<&'a JsonValue>)
    ensures
        or_null(r) == lookup(entries@, key@),
{
    let mut i: usize = 0;
    assert(entries@.subrange(0, entries@.len() as int) =~= entries@);
    while i < entries.len()
        invariant
            i <= entries@.len(),
            lookup(entries@, key@) == lookup(entries@.subrange(i as int, entries@.len() as int), key@),
        decreases entries@.len() - i,
    {
        let ghost rest = entries@.subrange(i as int, entries@.len() as int);
        assert(rest[0] == entries@[i as int]);
        assert(rest.drop_first() =~= entries@.subrange(i + 1, entries@.len() as int));
        if entries[i].0 == key.to_owned() {
            return Some(&entries[i].1);
        }
        i = i + 1;
    }
    assert(entries@.subrange(i as int, entries@.len() as int).len() == 0);
    None
}

/// `v[key]`, where `None` stands for `Null`.
pub fn key_of<'a>(v: Option<&'a JsonValue>, key: &str) -> (r: Option<&'a JsonValue>)
    ensures
        or_null(r) == at_key(or_null(v), key@),
{
    match v {
        Some(JsonValue::Object(entries)) => lookup_entries(entries, key),
        _ => None,
    }
}

/// `v[i]`, where `None` stands for `Null`.
pub fn index_of<'a>(v: Option<&'a JsonValue>, i: usize) -> (r: Option<&'a JsonValue>)
    ensures
        or_null(r) == at_index(or_null(v), i as int),
{
    match v {
        Some(JsonValue::Array(items)) => if i < items.len() {
            Some(&items[i])
        } else {
            None
        },
        _ => None,
    }
}

/// The text of `v` where it is a string.
pub fn as_str<'a>(v: Option<&'a JsonValue>) -> (r: Option<&'a str>)
    ensures
        match r {
            Some(s) => text_of(or_null(v)) == Some(s@),
            None => text_of(or_null(v)) is None,
        },
{
    match v {
        Some(JsonValue::String(s)) => Some(s.as_str()),
        _ => None,
    }
}

/// The items of `v` where it is an array.
pub fn as_array<'a>(v: Option<&'a JsonValue>) -> (r: Option<&'a Vec<JsonValue>>)
    ensures
        match r {
            Some(items) => or_null(v) == JsonValue::Array(*items),
            None => !(or_null(v) is Array),
        },
{
    match v {
        Some(JsonValue::Array(items)) => Some(items),
        _ => None,
    }
}

/// Whether `v` is `Null`.
pub fn is_null(v: Option<&JsonValue>) -> (r: bool)
    ensures
        r == (or_null(v) is Null),
{
    match v {
        None => true,
        Some(JsonValue::Null) => true,
        _ => false,
    }
}


/// Whether `v` is an object.
pub fn is_object(v: Option<&JsonValue>) -> (r: bool)
    ensures
        r == (or_null(v) is Object),
{
    match v {
        Some(JsonValue::Object(_)) => true,
        _ => false,
    }
}


/// `v[key]`, taken out of `v`.
pub fn take_key(v: JsonValue, key: &str) -> (r: JsonValue)
    ensures
        r == at_key(v, key@),
{
    let ghost original = v;
    match v {
        JsonValue::Object(entries) => {
            let ghost all = entries@;
            assert(at_key(original, key@) == lookup(all, key@));
            let mut entries = entries;
            let mut i: usize = 0;
            assert(all.subrange(0, all.len() as int) =~= all);
            while i < entries.len()
                invariant
                    i <= all.len(),
                    entries@ == all,
                    at_key(original, key@) == lookup(all, key@),
                    original == v,
                    lookup(all, key@) == lookup(all.subrange(i as int, all.len() as int), key@),
                decreases all.len() - i,
            {
                let ghost rest = all.subrange(i as int, all.len() as int);
                assert(rest[0] == all[i as int]);
                assert(rest.drop_first() =~= all.subrange(i + 1, all.len() as int));
                if entries[i].0 == key.to_owned() {
                    assert(rest[0].0@ == key@);
                    assert(lookup(rest, key@) == rest[0].1);
                    let pair = entries.remove(i);
                    assert(pair == all[i as int]);
                    assert(pair.1 == at_key(original, key@));
                    return pair.1;
                }
                i = i + 1;
            }
            assert(all.subrange(i as int, all.len() as int).len() == 0);
            JsonValue::Null
        },
        _ => JsonValue::Null,
    }
}

} // verus!
