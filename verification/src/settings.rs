//! Tunables of the client, with their defaults.

use vstd::prelude::*;
use crate::text::{parse_u64, parse_u64_spec, parse_usize, parse_usize_spec};
use std::time::Duration;

verus! {

/// Holds all tunables.
#[derive(Debug)]
pub struct Settings {
    pub streaming_buffer_capacity: usize,
    pub event_buffer_capacity: usize,
    pub inactivity_timeout: Duration,
    pub min_backoff: Duration,
    pub max_backoff: Duration,
    pub request_timeout: Duration,
    pub long_poll_timeout: Duration,
}

/// A count setting: the value given, when it parses, else the default.
pub fn count_setting(raw: Option<&str>, default: usize) -> (r: usize)
    ensures
        match raw {
            Some(s) => match parse_usize_spec(s@) {
                Some(v) => r == v,
                None => r == default,
            },
            None => r == default,
        },
{
    match raw {
        Some(s) => match parse_usize(s) {
            Some(v) => v,
            None => default,
        },
        None => default,
    }
}

/// A number setting (seconds or milliseconds): the value given, when it parses, else the default.
pub fn number_setting(raw: Option<&str>, default: u64) -> (r: u64)
    ensures
        match raw {
            Some(s) => match parse_u64_spec(s@) {
                Some(v) => r == v,
                None => r == default,
            },
            None => r == default,
        },
{
    match raw {
        Some(s) => match parse_u64(s) {
            Some(v) => v,
            None => default,
        },
        None => default,
    }
}

} // verus!
