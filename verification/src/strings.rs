//! Helpers on optional strings and numbers.
use vstd::prelude::*;
use crate::text::{i64_to_string, int_decimal};

verus! {

/// Marks optional strings.
pub trait IsOptionString {

}

impl IsOptionString for Option<String> {

}

/// Whether an optional string is absent or empty.
pub open spec fn none_or_empty(v: Option<Seq<char>>) -> bool {
    match v {
        Some(s) => s.len() == 0,
        None => true,
    }
}

pub trait IsNoneOrEmpty: IsOptionString {
    fn is_none_or_empty(&self) -> bool;
}

impl IsNoneOrEmpty for Option<String> {
    /// Whether the string is absent or has no characters.
    fn is_none_or_empty(&self) -> (b: bool)
        ensures
            b == none_or_empty(self.deep_view()),
    {
        match self {
            Some(s) => s.as_str().unicode_len() == 0,
            None => true,
        }
    }
}

/// The text of an optional string, absent ones as the empty string.
pub open spec fn or_empty(v: Option<Seq<char>>) -> Seq<char> {
    match v {
        Some(s) => s,
        None => Seq::empty(),
    }
}

/// The text of an optional number, absent ones as the empty string.
pub open spec fn number_or_empty(v: Option<i64>) -> Seq<char> {
    match v {
        Some(n) => int_decimal(n as int),
        None => Seq::empty(),
    }
}

/// The string, or the empty string where there is none.
pub fn get_empty_string(value: Option<String>) -> (s: String)
    ensures
        s@ == or_empty(value.deep_view()),
{
    match value {
        Some(s) => s,
        None => String::new(),
    }
}

/// The number in decimal, or the empty string where there is none.
pub fn get_number_string(value: Option<i64>) -> (s: String)
    ensures
        s@ == number_or_empty(value),
{
    match value {
        Some(n) => i64_to_string(n),
        None => String::new(),
    }
}

} // verus!
