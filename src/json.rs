//! A decoded JSON document, and the permissive field extraction that every
//! resolver applies to it: a missing or mistyped field reads as a default.
use vstd::prelude::*;

verus! {

/// A decoded JSON value.
///
/// Numbers keep what the resolvers read of them: a non-negative integer, a
/// negative integer, or any other number (with a fraction or an exponent),
/// whose value no field extraction uses.
pub enum Json {
    Null,
    Bool(bool),
    UInt(u64),
    NegInt(i64),
    Decimal,
    Str(String),
    Array(Vec<Json>),
    Object(Vec<(String, Json)>),
}

/// The value that a reference points to, if any.
pub open spec fn deref_opt(v: Option<&Json>) -> Option<Json> {
    match v {
        Some(x) => Some(*x),
        None => None,
    }
}

/// The value of the first entry from index `i` on whose key is `key`.
pub open spec fn entry_value(entries: Seq<(String, Json)>, key: Seq<char>, i: int) -> Option<Json>
    decreases entries.len() - i,
{
    if i < 0 || i >= entries.len() {
        None
    } else if entries[i].0@ == key {
        Some(entries[i].1)
    } else {
        entry_value(entries, key, i + 1)
    }
}

/// The member `key` of an object; absent for anything that is not an object.
pub open spec fn field(v: Option<Json>, key: Seq<char>) -> Option<Json> {
    match v {
        Some(Json::Object(entries)) => entry_value(entries@, key, 0),
        _ => None,
    }
}

/// The text of a string value; empty for anything else.
pub open spec fn text(v: Option<Json>) -> Seq<char> {
    match v {
        Some(Json::Str(s)) => s@,
        _ => Seq::empty(),
    }
}

/// A number read as `u64`; zero when it is not a non-negative integer.
pub open spec fn unsigned(v: Option<Json>) -> u64 {
    match v {
        Some(Json::UInt(n)) => n,
        _ => 0,
    }
}

/// A number read as `i64`; zero when it is not an integer in range.
pub open spec fn signed(v: Option<Json>) -> i64 {
    match v {
        Some(Json::UInt(n)) => if n <= i64::MAX as u64 {
            n as i64
        } else {
            0
        },
        Some(Json::NegInt(n)) => n,
        _ => 0,
    }
}

/// The elements of an array value.
pub open spec fn elements(v: Option<Json>) -> Option<Seq<Json>> {
    match v {
        Some(Json::Array(items)) => Some(items@),
        _ => None,
    }
}

/// The entries of an object value.
pub open spec fn entries(v: Option<Json>) -> Option<Seq<(String, Json)>> {
    match v {
        Some(Json::Object(e)) => Some(e@),
        _ => None,
    }
}

/// Whether two strings hold the same characters.
pub fn same_text(a: &str, b: &str) -> (r: bool)
    ensures
        r == (a@ == b@),
{
    a.to_owned() == b.to_owned()
}

/// Looks up the member `key` of `v`: the first entry with that key.
pub fn member<'a>(v: Option<&'a Json>, key: &str) -> (r: Option<&'a Json>)
    ensures
        deref_opt(r) == field(deref_opt(v), key@),
{
    match v {
        Some(Json::Object(entries)) => {
            let mut i: usize = 0;
            while i < entries.len()
                invariant
                    i <= entries.len(),
                    field(deref_opt(v), key@) == entry_value(entries@, key@, i as int),
                decreases entries.len() - i,
            {
                let entry = &entries[i];
                if same_text(entry.0.as_str(), key) {
                    assert(entry_value(entries@, key@, i as int) == Some(entry.1));
                    return Some(&entry.1);
                }
                i = i + 1;
            }
            None
        },
        _ => None,
    }
}

/// The text of a string value, or the empty string.
pub fn text_of(v: Option<&Json>) -> (r: String)
    ensures
        r@ == text(deref_opt(v)),
{
    match v {
        Some(Json::Str(s)) => s.clone(),
        _ => String::new(),
    }
}

/// A number as `u64`, or zero.
pub fn unsigned_of(v: Option<&Json>) -> (r: u64)
    ensures
        r == unsigned(deref_opt(v)),
{
    match v {
        Some(Json::UInt(n)) => *n,
        _ => 0,
    }
}

/// A number as `i64`, or zero.
pub fn signed_of(v: Option<&Json>) -> (r: i64)
    ensures
        r == signed(deref_opt(v)),
{
    match v {
        Some(Json::UInt(n)) => if *n <= i64::MAX as u64 {
            *n as i64
        } else {
            0
        },
        Some(Json::NegInt(n)) => *n,
        _ => 0,
    }
}

/// The elements of an array value.
pub fn elements_of<'a>(v: Option<&'a Json>) -> (r: Option<&'a Vec<Json>>)
    ensures
        match r {
            Some(items) => elements(deref_opt(v)) == Some(items@),
            None => elements(deref_opt(v)) is None,
        },
{
    match v {
        Some(Json::Array(items)) => Some(items),
        _ => None,
    }
}

/// The entries of an object value.
pub fn entries_of<'a>(v: Option<&'a Json>) -> (r: Option<&'a Vec<(String, Json)>>)
    ensures
        match r {
            Some(e) => entries(deref_opt(v)) == Some(e@),
            None => entries(deref_opt(v)) is None,
        },
{
    match v {
        Some(Json::Object(e)) => Some(e),
        _ => None,
    }
}

} // verus!
