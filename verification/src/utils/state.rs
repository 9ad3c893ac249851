//! A unified playback state, keyed by the integer codes the API uses.

use vstd::prelude::*;
use crate::events::{status_of_state, PlaybackStatus as EventStatus};
use crate::text::{decimal_int, lemma_parse_decimal_i32};

verus! {

/// Unified representation of YouTube playback state.
#[derive(Debug, Clone, Copy, PartialEq, Eq, Structural)]
pub enum PlaybackStatus {
    /// Video is stopped (-1)
    Stopped,
    /// Buffering between videos (0)
    BufferingBetween,
    /// Video is currently playing (1)
    Playing,
    /// Video is paused (2)
    Paused,
    /// Video is starting (3)
    Starting,
    /// Video has ended (5)
    Ended,
    /// Advertisement is playing (1081)
    Advertisement,
    /// Unknown state
    Unknown,
}

/// The state that an integer code stands for.
pub open spec fn status_of_code(state: i32) -> PlaybackStatus {
    if state == -1 {
        PlaybackStatus::Stopped
    } else if state == 0 {
        PlaybackStatus::BufferingBetween
    } else if state == 1 {
        PlaybackStatus::Playing
    } else if state == 2 {
        PlaybackStatus::Paused
    } else if state == 3 {
        PlaybackStatus::Starting
    } else if state == 5 {
        PlaybackStatus::Ended
    } else if state == 1081 {
        PlaybackStatus::Advertisement
    } else {
        PlaybackStatus::Unknown
    }
}

/// The integer code of a state (-99 for an unknown one).
pub open spec fn code_of_status(s: PlaybackStatus) -> i32 {
    match s {
        PlaybackStatus::Stopped => -1i32,
        PlaybackStatus::BufferingBetween => 0i32,
        PlaybackStatus::Playing => 1i32,
        PlaybackStatus::Paused => 2i32,
        PlaybackStatus::Starting => 3i32,
        PlaybackStatus::Ended => 5i32,
        PlaybackStatus::Advertisement => 1081i32,
        PlaybackStatus::Unknown => -99i32,
    }
}

/// The upper-case name of a state.
pub open spec fn name_of_status(s: PlaybackStatus) -> Seq<char> {
    match s {
        PlaybackStatus::Stopped => "STOPPED"@,
        PlaybackStatus::BufferingBetween => "BUFFERING_BETWEEN"@,
        PlaybackStatus::Playing => "PLAYING"@,
        PlaybackStatus::Paused => "PAUSED"@,
        PlaybackStatus::Starting => "STARTING"@,
        PlaybackStatus::Ended => "ENDED"@,
        PlaybackStatus::Advertisement => "ADVERTISEMENT"@,
        PlaybackStatus::Unknown => "UNKNOWN"@,
    }
}

/// The codes that name a known state.
pub open spec fn is_known_code(state: i32) -> bool {
    state == -1 || state == 0 || state == 1 || state == 2 || state == 3 || state == 5 || state
        == 1081
}

impl PlaybackStatus {
    /// Convert from integer state to enum value.
    pub fn from_i32(state: i32) -> (r: PlaybackStatus)
        ensures
            r == status_of_code(state),
    {
        match state {
            -1 => PlaybackStatus::Stopped,
            0 => PlaybackStatus::BufferingBetween,
            1 => PlaybackStatus::Playing,
            2 => PlaybackStatus::Paused,
            3 => PlaybackStatus::Starting,
            5 => PlaybackStatus::Ended,
            1081 => PlaybackStatus::Advertisement,
            _ => PlaybackStatus::Unknown,
        }
    }

    /// Convert to integer representation.
    pub fn to_i32(self) -> (r: i32)
        ensures
            r == code_of_status(self),
    {
        match self {
            PlaybackStatus::Stopped => -1,
            PlaybackStatus::BufferingBetween => 0,
            PlaybackStatus::Playing => 1,
            PlaybackStatus::Paused => 2,
            PlaybackStatus::Starting => 3,
            PlaybackStatus::Ended => 5,
            PlaybackStatus::Advertisement => 1081,
            PlaybackStatus::Unknown => -99,
        }
    }

    /// Get string representation of the state.
    pub fn as_str(self) -> (r: &'static str)
        ensures
            r@ == name_of_status(self),
    {
        match self {
            PlaybackStatus::Stopped => "STOPPED",
            PlaybackStatus::BufferingBetween => "BUFFERING_BETWEEN",
            PlaybackStatus::Playing => "PLAYING",
            PlaybackStatus::Paused => "PAUSED",
            PlaybackStatus::Starting => "STARTING",
            PlaybackStatus::Ended => "ENDED",
            PlaybackStatus::Advertisement => "ADVERTISEMENT",
            PlaybackStatus::Unknown => "UNKNOWN",
        }
    }
}

/// Converting a state to its code and back gives the same state.
pub proof fn lemma_status_code_round_trip(s: PlaybackStatus)
    ensures
        status_of_code(code_of_status(s)) == s,
{
}

/// A code converts to a state and back to itself exactly when it is a known
/// code or the code used for the unknown state.
pub proof fn lemma_code_status_round_trip(state: i32)
    ensures
        code_of_status(status_of_code(state)) == state <==> (is_known_code(state) || state == -99),
{
}

/// Distinct states have distinct names.
pub proof fn lemma_status_names_distinct(a: PlaybackStatus, b: PlaybackStatus)
    requires
        a != b,
    ensures
        name_of_status(a) != name_of_status(b),
{
    reveal_strlit("STOPPED");
    reveal_strlit("BUFFERING_BETWEEN");
    reveal_strlit("PLAYING");
    reveal_strlit("PAUSED");
    reveal_strlit("STARTING");
    reveal_strlit("ENDED");
    reveal_strlit("ADVERTISEMENT");
    reveal_strlit("UNKNOWN");
    let x = name_of_status(a);
    let y = name_of_status(b);
    if x == y {
        assert(x.len() == y.len());
        assert(x[0] == y[0]);
        assert(x[1] == y[1]);
        assert(x[2] == y[2]);
    }
}

/// Each state has its documented code, and no other code stands for it:
/// -1 stopped, 0 buffering between videos, 1 playing, 2 paused, 3 starting,
/// 5 ended, 1081 advertisement; every other code is unknown, whose own code is -99.
pub proof fn lemma_status_codes(c: i32, s: PlaybackStatus)
    ensures
        status_of_code(c) == PlaybackStatus::Stopped <==> c == -1,
        status_of_code(c) == PlaybackStatus::BufferingBetween <==> c == 0,
        status_of_code(c) == PlaybackStatus::Playing <==> c == 1,
        status_of_code(c) == PlaybackStatus::Paused <==> c == 2,
        status_of_code(c) == PlaybackStatus::Starting <==> c == 3,
        status_of_code(c) == PlaybackStatus::Ended <==> c == 5,
        status_of_code(c) == PlaybackStatus::Advertisement <==> c == 1081,
        code_of_status(s) == -1 <==> s == PlaybackStatus::Stopped,
        code_of_status(s) == 0 <==> s == PlaybackStatus::BufferingBetween,
        code_of_status(s) == 1 <==> s == PlaybackStatus::Playing,
        code_of_status(s) == 2 <==> s == PlaybackStatus::Paused,
        code_of_status(s) == 3 <==> s == PlaybackStatus::Starting,
        code_of_status(s) == 5 <==> s == PlaybackStatus::Ended,
        code_of_status(s) == 1081 <==> s == PlaybackStatus::Advertisement,
        code_of_status(s) == -99 <==> s == PlaybackStatus::Unknown,
{
}

/// The state of a code agrees with the status that the events give to the
/// same code written in decimal: stopped, buffering, playing, paused,
/// starting and advertisement alike.
pub proof fn lemma_status_agrees_with_events(c: i32)
    ensures
        status_of_code(c) == PlaybackStatus::Stopped <==> status_of_state(decimal_int(c as int))
            == EventStatus::Stopped,
        status_of_code(c) == PlaybackStatus::BufferingBetween <==> status_of_state(
            decimal_int(c as int),
        ) == EventStatus::Buffering,
        status_of_code(c) == PlaybackStatus::Playing <==> status_of_state(decimal_int(c as int))
            == EventStatus::Playing,
        status_of_code(c) == PlaybackStatus::Paused <==> status_of_state(decimal_int(c as int))
            == EventStatus::Paused,
        status_of_code(c) == PlaybackStatus::Starting <==> status_of_state(decimal_int(c as int))
            == EventStatus::Starting,
        status_of_code(c) == PlaybackStatus::Advertisement <==> status_of_state(
            decimal_int(c as int),
        ) == EventStatus::Advertisement,
{
    lemma_parse_decimal_i32(c);
}

/// Types that have a playback state.
pub trait HasPlaybackState {
    /// The current playback state, as the type's implementor defines it.
    spec fn playback_status(&self) -> PlaybackStatus;

    /// Get the current playback state.
    fn status(&self) -> (r: PlaybackStatus)
        ensures
            r == self.playback_status(),
    ;

    /// Check if media is currently playing.
    fn is_playing(&self) -> (r: bool)
        ensures
            r == (self.playback_status() == PlaybackStatus::Playing),
    {
        self.status() == PlaybackStatus::Playing
    }

    /// Check if media is currently paused.
    fn is_paused(&self) -> (r: bool)
        ensures
            r == (self.playback_status() == PlaybackStatus::Paused),
    {
        self.status() == PlaybackStatus::Paused
    }

    /// Check if media is currently buffering.
    fn is_buffering(&self) -> (r: bool)
        ensures
            r == (self.playback_status() == PlaybackStatus::BufferingBetween),
    {
        self.status() == PlaybackStatus::BufferingBetween
    }

    /// Check if media is currently stopped.
    fn is_stopped(&self) -> (r: bool)
        ensures
            r == (self.playback_status() == PlaybackStatus::Stopped),
    {
        self.status() == PlaybackStatus::Stopped
    }

    /// Check if an advertisement is playing.
    fn is_ad(&self) -> (r: bool)
        ensures
            r == (self.playback_status() == PlaybackStatus::Advertisement),
    {
        self.status() == PlaybackStatus::Advertisement
    }
}

} // verus!
