//! The decisions of the background connection manager and of the
//! token-refresh retries: what follows each cycle's outcome.

use vstd::prelude::*;
use crate::error::{error_text, LoungeError};
use crate::state::{ConnectionState, ConnectionStatus, SessionState};

verus! {

/// The first wait after a failure, in milliseconds.
pub const MIN_BACKOFF_MS: u64 = 500;

/// The longest wait between attempts, in milliseconds.
pub const MAX_BACKOFF_MS: u64 = 60000;

/// The wait after `b`: twice as long, up to the maximum.
pub open spec fn doubled(b: u64) -> u64 {
    if 2 * b > MAX_BACKOFF_MS {
        MAX_BACKOFF_MS
    } else {
        (2 * b) as u64
    }
}

/// What the manager does next.
#[derive(Debug, Clone, Copy, PartialEq, Eq, Structural)]
pub enum ManagerAction {
    /// Start the next cycle at once.
    Continue,
    /// Refresh the lounge token, then decide with `after_refresh`.
    RefreshToken,
    /// Announce the wait, wait about `base_ms` (with jitter), then start the next cycle.
    BackOff { base_ms: u64 },
}

/// The manager's decision after a cycle.
#[derive(Debug)]
pub struct ManagerStep {
    pub action: ManagerAction,
    /// States to announce, in order, before acting.
    pub announce: Vec<ConnectionState>,
    /// Whether to report that the screen disconnected.
    pub screen_disconnected: bool,
    /// The wait to use after the next failure.
    pub next_backoff_ms: u64,
}

fn double_backoff(b: u64) -> (r: u64)
    ensures
        r == doubled(b),
{
    if b > MAX_BACKOFF_MS / 2 {
        MAX_BACKOFF_MS
    } else {
        2 * b
    }
}

/// The cycle to run next: a poll of the bound session (announcing
/// `Connected`), or a bind (announcing `Connecting`).
pub fn next_cycle(session: &SessionState) -> (r: (Option<(String, String)>, ConnectionState))
    ensures
        match (session.sid, session.gsessionid) {
            (Some(s), Some(g)) => r.0 == Some((s, g)) && r.1 is Connected,
            _ => r.0 is None && r.1 is Connecting,
        },
{
    match session.get_session_info() {
        Some(ids) => (Some(ids), ConnectionState::Connected),
        None => (None, ConnectionState::Connecting),
    }
}

/// Decides what follows a poll or bind cycle that ended with `result`.
pub fn after_cycle(session: &mut SessionState, backoff_ms: u64, result: &Result<ConnectionStatus, LoungeError>) -> (r: ManagerStep)
    ensures
        final(session).rid == old(session).rid,
        final(session).command_offset == old(session).command_offset,
        match result {
            Ok(ConnectionStatus::Success) => {
                &&& r.action == ManagerAction::Continue
                &&& r.announce@.len() == 0
                &&& !r.screen_disconnected
                &&& r.next_backoff_ms == MIN_BACKOFF_MS
                &&& *final(session) == *old(session)
            },
            Ok(ConnectionStatus::SessionInvalidated) => {
                &&& r.action == ManagerAction::BackOff { base_ms: backoff_ms }
                &&& r.announce@.len() == 1 && r.announce@[0] is Connecting
                &&& r.screen_disconnected
                &&& r.next_backoff_ms == doubled(backoff_ms)
                &&& final(session).sid is None && final(session).gsessionid is None
            },
            Ok(ConnectionStatus::TokenExpired) => {
                &&& r.action == ManagerAction::RefreshToken
                &&& r.announce@.len() == 0
                &&& !r.screen_disconnected
                &&& r.next_backoff_ms == backoff_ms
                &&& *final(session) == *old(session)
            },
            Err(LoungeError::ConnectionClosed) => {
                &&& r.action == ManagerAction::Continue
                &&& r.announce@.len() == 0
                &&& !r.screen_disconnected
                &&& r.next_backoff_ms == backoff_ms
                &&& *final(session) == *old(session)
            },
            Err(_) => {
                &&& r.action == ManagerAction::BackOff { base_ms: backoff_ms }
                &&& r.announce@.len() == 0
                &&& r.screen_disconnected == old(session).sid is Some
                &&& r.next_backoff_ms == doubled(backoff_ms)
                &&& (old(session).sid is Some ==> final(session).sid is None
                    && final(session).gsessionid is None)
                &&& (old(session).sid is None ==> *final(session) == *old(session))
            },
        },
{
    match result {
        Ok(ConnectionStatus::Success) => ManagerStep {
            action: ManagerAction::Continue,
            announce: Vec::new(),
            screen_disconnected: false,
            next_backoff_ms: MIN_BACKOFF_MS,
        },
        Ok(ConnectionStatus::SessionInvalidated) => {
            session.clear_ids();
            let mut announce: Vec<ConnectionState> = Vec::new();
            announce.push(ConnectionState::Connecting);
            ManagerStep {
                action: ManagerAction::BackOff { base_ms: backoff_ms },
                announce,
                screen_disconnected: true,
                next_backoff_ms: double_backoff(backoff_ms),
            }
        },
        Ok(ConnectionStatus::TokenExpired) => ManagerStep {
            action: ManagerAction::RefreshToken,
            announce: Vec::new(),
            screen_disconnected: false,
            next_backoff_ms: backoff_ms,
        },
        Err(LoungeError::ConnectionClosed) => ManagerStep {
            action: ManagerAction::Continue,
            announce: Vec::new(),
            screen_disconnected: false,
            next_backoff_ms: backoff_ms,
        },
        Err(_) => {
            let was_bound = session.sid.is_some();
            if was_bound {
                session.clear_ids();
            }
            ManagerStep {
                action: ManagerAction::BackOff { base_ms: backoff_ms },
                announce: Vec::new(),
                screen_disconnected: was_bound,
                next_backoff_ms: double_backoff(backoff_ms),
            }
        },
    }
}

/// The text of the state announced when a token refresh fails with `e`.
pub open spec fn refresh_failed_text(e: LoungeError) -> Seq<char> {
    "Token refresh failed: "@ + error_text(e)
}

/// Decides what follows a token refresh made after a cycle.
pub fn after_refresh(backoff_ms: u64, refresh: &Result<(), LoungeError>) -> (r: ManagerStep)
    ensures
        !r.screen_disconnected,
        match refresh {
            Ok(()) => r.action == ManagerAction::Continue && r.announce@.len() == 0
                && r.next_backoff_ms == MIN_BACKOFF_MS,
            Err(e) => {
                &&& r.action == ManagerAction::BackOff { base_ms: backoff_ms }
                &&& r.announce@.len() == 1
                &&& r.announce@[0] matches ConnectionState::Failed(m) && m@ == refresh_failed_text(*e)
                &&& r.next_backoff_ms == doubled(backoff_ms)
            },
        },
{
    match refresh {
        Ok(()) => ManagerStep {
            action: ManagerAction::Continue,
            announce: Vec::new(),
            screen_disconnected: false,
            next_backoff_ms: MIN_BACKOFF_MS,
        },
        Err(e) => {
            let mut m = "Token refresh failed: ".to_string();
            let t = e.message();
            m.append(t.as_str());
            let mut announce: Vec<ConnectionState> = Vec::new();
            announce.push(ConnectionState::Failed(m));
            ManagerStep {
                action: ManagerAction::BackOff { base_ms: backoff_ms },
                announce,
                screen_disconnected: false,
                next_backoff_ms: double_backoff(backoff_ms),
            }
        },
    }
}

/// The state announced when the first connection attempt fails with `e`.
pub fn initial_connection_failed(e: &LoungeError) -> (r: ConnectionState)
    ensures
        r matches ConnectionState::Failed(m) && m@ == "Initial connection failed: "@ + error_text(*e),
{
    let mut m = "Initial connection failed: ".to_string();
    let t = e.message();
    m.append(t.as_str());
    ConnectionState::Failed(m)
}

/// The state announced when the token refresh of a connection attempt fails
/// with `e` (the error already wrapped as a refresh failure).
pub fn connect_refresh_failed(e: &LoungeError) -> (r: ConnectionState)
    ensures
        r matches ConnectionState::Failed(m) && m@ == refresh_failed_text(*e),
{
    let mut m = "Token refresh failed: ".to_string();
    let t = e.message();
    m.append(t.as_str());
    ConnectionState::Failed(m)
}

/// Whether a failed attempt calls for a token refresh and one more attempt.
pub fn needs_token_refresh<T>(result: &Result<T, LoungeError>) -> (r: bool)
    ensures
        r == (result matches Err(LoungeError::TokenExpired)),
{
    match result {
        Err(LoungeError::TokenExpired) => true,
        _ => false,
    }
}

/// Whether a command may be sent again after a token refresh: only while
/// still connected.
pub fn retry_after_refresh(conn: &ConnectionState) -> (r: Result<(), LoungeError>)
    ensures
        *conn is Connected ==> r is Ok,
        !(*conn is Connected) ==> (r matches Err(LoungeError::SessionLost)),
{
    if conn.is_connected() {
        Ok(())
    } else {
        Err(LoungeError::SessionLost)
    }
}

// ---------------------------------------------------------------- laws

/// The wait between attempts always stays within its bounds.
pub proof fn lemma_backoff_bounded(b: u64)
    requires
        MIN_BACKOFF_MS <= b <= MAX_BACKOFF_MS,
    ensures
        MIN_BACKOFF_MS <= doubled(b) <= MAX_BACKOFF_MS,
        b <= doubled(b),
{
}

/// Repeated failures double the wait until it reaches the maximum.
pub proof fn lemma_backoff_reaches_max(b: u64, n: nat)
    requires
        MIN_BACKOFF_MS <= b <= MAX_BACKOFF_MS,
        n >= 7,
    ensures
        iterate_doubled(b, n) == MAX_BACKOFF_MS,
    decreases n,
{
    if n > 7 {
        lemma_backoff_reaches_max(b, (n - 1) as nat);
    } else {
        reveal_with_fuel(iterate_doubled, 8);
    }
}

/// The wait after `n` failures in a row, starting from `b`.
pub open spec fn iterate_doubled(b: u64, n: nat) -> u64
    decreases n,
{
    if n == 0 {
        b
    } else {
        doubled(iterate_doubled(b, (n - 1) as nat))
    }
}

} // verus!
