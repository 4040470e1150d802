//! A JSON document as plain data, and the lookups the bot makes in one:
//! a key of an object, an item of an array, a string, an integer.
use vstd::prelude::*;
use crate::text::str_eq;

verus! {

/// A JSON number: a non-negative integer, a negative integer, or a number
/// with a fraction or exponent (whose value the bot never reads).
#[derive(Clone, Debug)]
pub enum Number {
    PosInt(u64),
    NegInt(i64),
    Float,
}

/// A JSON value. An object keeps its entries in order, each key once.
#[derive(Debug)]
pub enum Json {
    Null,
    Bool(bool),
    Number(Number),
    String(String),
    Array(Vec<Json>),
    Object(Vec<(String, Json)>),
}

/// The value of the first entry with the given key, or `Null` where there
/// is none.
pub open spec fn lookup(entries: Seq<(String, Json)>, key: Seq<char>) -> Json
    decreases entries.len(),
{
    if entries.len() == 0 {
        Json::Null
    } else if entries[0].0@ == key {
        entries[0].1
    } else {
        lookup(entries.drop_first(), key)
    }
}

impl Json {
    /// `value[key]`: the value under the key of an object, `Null` for a
    /// missing key or a value that is no object.
    pub open spec fn key(self, key: Seq<char>) -> Json {
        match self {
            Json::Object(entries) => lookup(entries@, key),
            _ => Json::Null,
        }
    }

    /// `value[i]`: the item at a position of an array, `Null` past its end
    /// or for a value that is no array.
    pub open spec fn item(self, i: int) -> Json {
        match self {
            Json::Array(items) => if 0 <= i < items@.len() {
                items@[i]
            } else {
                Json::Null
            },
            _ => Json::Null,
        }
    }

    /// The text of a string value.
    pub open spec fn text(self) -> Option<Seq<char>> {
        match self {
            Json::String(s) => Some(s@),
            _ => None,
        }
    }

    /// The integer value of a number that fits in an `i64`.
    pub open spec fn integer(self) -> Option<i64> {
        match self {
            Json::Number(Number::PosInt(n)) => if n <= i64::MAX {
                Some(n as i64)
            } else {
                None
            },
            Json::Number(Number::NegInt(n)) => Some(n),
            _ => None,
        }
    }

    /// Looks up a key of an object; `None` stands for `Null`.
    pub fn get(&self, key: &str) -> (r: Option<&Json>)
        ensures
            match r {
                Some(v) => *v == self.key(key@),
                None => self.key(key@) == Json::Null,
            },
    {
        match self {
            Json::Object(entries) => {
                let n = entries.len();
                let mut i: usize = 0;
                assert(entries@.skip(0) =~= entries@);
                while i < n
                    invariant
                        n == entries@.len(),
                        i <= n,
                        self.key(key@) == lookup(entries@, key@),
                        lookup(entries@, key@) == lookup(entries@.skip(i as int), key@),
                    decreases n - i,
                {
                    assert(entries@.skip(i as int).drop_first() =~= entries@.skip(i + 1));
                    assert(entries@.skip(i as int)[0] == entries@[i as int]);
                    if str_eq(entries[i].0.as_str(), key) {
                        return Some(&entries[i].1);
                    }
                    i = i + 1;
                }
                None
            },
            _ => None,
        }
    }

    /// Looks up an item of an array; `None` stands for `Null`.
    pub fn at(&self, i: usize) -> (r: Option<&Json>)
        ensures
            match r {
                Some(v) => *v == self.item(i as int),
                None => self.item(i as int) == Json::Null,
            },
    {
        match self {
            Json::Array(items) => {
                if i < items.len() {
                    Some(&items[i])
                } else {
                    None
                }
            },
            _ => None,
        }
    }

    /// The text of a string value, as `Value::as_str` gives it.
    pub fn as_str(&self) -> (r: Option<&str>)
        ensures
            match r {
                Some(s) => self.text() == Some(s@),
                None => self.text() is None,
            },
    {
        match self {
            Json::String(s) => Some(s.as_str()),
            _ => None,
        }
    }

    /// The integer value of a number that fits in an `i64`, as
    /// `Value::as_i64` gives it.
    pub fn as_i64(&self) -> (r: Option<i64>)
        ensures
            r == self.integer(),
    {
        match self {
            Json::Number(Number::PosInt(n)) => {
                if *n <= 9223372036854775807u64 {
                    Some(*n as i64)
                } else {
                    None
                }
            },
            Json::Number(Number::NegInt(n)) => Some(*n),
            _ => None,
        }
    }
}

/// The value a lookup found; `None` stands for `Null`.
pub open spec fn deref_or_null(v: Option<&Json>) -> Json {
    match v {
        Some(j) => *j,
        None => Json::Null,
    }
}

} // verus!
