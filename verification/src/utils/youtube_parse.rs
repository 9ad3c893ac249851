//! Helpers for the string values in which the Lounge API sends numbers,
//! flags and lists.

use vstd::prelude::*;
use crate::text::{chars_of, parse_i32, parse_i32_spec, same_chars, split_and_trim, split_on, trim};

verus! {

/// The integer that `s` denotes, or 0 where it denotes none.
pub open spec fn parse_int_spec(s: Seq<char>) -> i32 {
    match parse_i32_spec(s) {
        Some(v) => v,
        None => 0,
    }
}

/// Whether `s` is exactly `true`.
pub open spec fn parse_bool_spec(s: Seq<char>) -> bool {
    s == "true"@
}

/// Parses an integer, defaulting to 0 when `s` is not one.
pub fn parse_int(s: &str) -> (r: i32)
    ensures
        r == parse_int_spec(s@),
{
    match parse_i32(s) {
        Some(v) => v,
        None => 0,
    }
}

/// Parses a flag: `true` (case-sensitive) is true, anything else is false.
pub fn parse_bool(s: &str) -> (r: bool)
    ensures
        r == parse_bool_spec(s@),
{
    same_chars(s, "true")
}

/// Splits a comma-separated list, trimming each item.
pub fn parse_list(s: &str) -> (r: Vec<String>)
    ensures
        r@.len() == split_on(s@, ',').len(),
        forall|i: int| 0 <= i < r@.len() ==> #[trigger] r@[i]@ == trim(split_on(s@, ',')[i]),
{
    let v = chars_of(s);
    split_and_trim(v.as_slice(), ',')
}

} // verus!
