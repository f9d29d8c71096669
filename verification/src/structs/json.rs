//! A JSON value as the library holds it: what Discord sends as free-form
//! JSON (option values, choices, unrecognised event data).

use vstd::prelude::*;
use crate::keyed::{find_key, lookup};

verus! {

/// A JSON number, with the readings that a JSON library offers of it.
#[derive(Clone, Copy, Debug, PartialEq, Eq, Structural)]
pub struct JsonNumber {
    /// The number as a signed 64-bit integer, when it is an integer that fits
    pub as_i64: Option<i64>,
    /// The number as an unsigned 64-bit integer, when it is an integer that fits
    pub as_u64: Option<u64>,
    /// The number as a 64-bit float, as the float's bit pattern
    pub as_f64_bits: u64,
}

/// Any JSON value
#[derive(Debug)]
pub enum JsonValue {
    /// `null`
    Null,
    /// `true` or `false`
    Bool(bool),
    /// A number
    Number(JsonNumber),
    /// A string
    String(String),
    /// An array
    Array(Vec<JsonValue>),
    /// An object, its members in order
    Object(Vec<(String, JsonValue)>),
}

impl JsonValue {
    /// The string this value holds, if it is a string.
    pub fn as_str(&self) -> (r: Option<&String>)
        ensures
            match *self {
                JsonValue::String(s) => r == Some(&s),
                _ => r is None,
            },
    {
        match self {
            JsonValue::String(s) => Some(s),
            _ => None,
        }
    }

    /// The integer this value holds, if it is a number that is an integer fitting an `i64`.
    pub fn as_i64(&self) -> (r: Option<i64>)
        ensures
            match *self {
                JsonValue::Number(n) => r == n.as_i64,
                _ => r is None,
            },
    {
        match self {
            JsonValue::Number(n) => n.as_i64,
            _ => None,
        }
    }

    /// The integer this value holds, if it is a number that is an integer fitting a `u64`.
    pub fn as_u64(&self) -> (r: Option<u64>)
        ensures
            match *self {
                JsonValue::Number(n) => r == n.as_u64,
                _ => r is None,
            },
    {
        match self {
            JsonValue::Number(n) => n.as_u64,
            _ => None,
        }
    }

    /// The bit pattern of the float this value holds, if it is a number.
    pub fn as_f64_bits(&self) -> (r: Option<u64>)
        ensures
            match *self {
                JsonValue::Number(n) => r == Some(n.as_f64_bits),
                _ => r is None,
            },
    {
        match self {
            JsonValue::Number(n) => Some(n.as_f64_bits),
            _ => None,
        }
    }

    /// The boolean this value holds, if it is a boolean.
    pub fn as_bool(&self) -> (r: Option<bool>)
        ensures
            match *self {
                JsonValue::Bool(b) => r == Some(b),
                _ => r is None,
            },
    {
        match self {
            JsonValue::Bool(b) => Some(*b),
            _ => None,
        }
    }

    /// Whether this value is `null`.
    pub fn is_null(&self) -> (r: bool)
        ensures
            r == (*self is Null),
    {
        match self {
            JsonValue::Null => true,
            _ => false,
        }
    }

    /// The member `key` of this value, if it is an object that has one (the first such member).
    pub fn get(&self, key: &str) -> (r: Option<&JsonValue>)
        ensures
            match *self {
                JsonValue::Object(members) => match lookup(members@, key@) {
                    Some(v) => r == Some(&v),
                    None => r is None,
                },
                _ => r is None,
            },
    {
        match self {
            JsonValue::Object(members) => match find_key(members, key) {
                Some(i) => Some(&members[i].1),
                None => None,
            },
            _ => None,
        }
    }
}

/// The default JSON value is `null`.
impl Default for JsonValue {
    fn default() -> (r: Self)
        ensures
            r is Null,
    {
        JsonValue::Null
    }
}

impl Clone for JsonValue {
    fn clone(&self) -> (r: Self)
        decreases self,
    {
        match self {
            JsonValue::Null => JsonValue::Null,
            JsonValue::Bool(b) => JsonValue::Bool(*b),
            JsonValue::Number(n) => JsonValue::Number(*n),
            JsonValue::String(s) => JsonValue::String(s.clone()),
            JsonValue::Array(items) => {
                let mut out: Vec<JsonValue> = Vec::new();
                let mut i: usize = 0;
                while i < items.len()
                    invariant
                        i <= items.len(),
                        *self == JsonValue::Array(*items),
                    decreases items.len() - i,
                {
                    proof {
                        assert(decreases_to!(*self => self->Array_0));
                        assert(decreases_to!(*items => items@));
                        assert(decreases_to!(items@ => items@[i as int]));
                    }
                    out.push(items[i].clone());
                    i = i + 1;
                }
                JsonValue::Array(out)
            },
            JsonValue::Object(members) => {
                let mut out: Vec<(String, JsonValue)> = Vec::new();
                let mut i: usize = 0;
                while i < members.len()
                    invariant
                        i <= members.len(),
                        *self == JsonValue::Object(*members),
                    decreases members.len() - i,
                {
                    proof {
                        assert(decreases_to!(*self => self->Object_0));
                        assert(decreases_to!(*members => members@));
                        assert(decreases_to!(members@ => members@[i as int]));
                        assert(decreases_to!(members@[i as int] => members@[i as int].1));
                    }
                    out.push((members[i].0.clone(), members[i].1.clone()));
                    i = i + 1;
                }
                JsonValue::Object(out)
            },
        }
    }
}

} // verus!
