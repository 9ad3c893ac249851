//! Connection states, the outcome of a connection cycle, and the session
//! bookkeeping (ids and request counters) shared by every request.

use vstd::prelude::*;
use crate::models::copy_opt_string;
use std::time::Duration;

verus! {

/// Represents the observable state of the background connection manager.
#[derive(Debug, PartialEq, Eq)]
pub enum ConnectionState {
    /// Initial state or after explicit disconnection.
    Disconnected,
    /// Attempting the initial bind or re-bind after disconnection/error.
    Connecting,
    /// Successfully bound and actively polling for events.
    Connected,
    /// A recoverable error occurred, waiting before retrying connection.
    WaitingToReconnect { backoff: Duration },
    /// An unrecoverable error occurred (e.g., invalid screen ID, repeated auth failures).
    Failed(String),
    /// The manager task is shutting down (e.g., after disconnect() or Drop).
    Stopping,
}

impl Clone for ConnectionState {
    fn clone(&self) -> (r: Self)
        ensures
            r == *self,
    {
        match self {
            ConnectionState::Disconnected => ConnectionState::Disconnected,
            ConnectionState::Connecting => ConnectionState::Connecting,
            ConnectionState::Connected => ConnectionState::Connected,
            ConnectionState::WaitingToReconnect { backoff } => ConnectionState::WaitingToReconnect {
                backoff: *backoff,
            },
            ConnectionState::Failed(m) => ConnectionState::Failed(m.clone()),
            ConnectionState::Stopping => ConnectionState::Stopping,
        }
    }
}

impl ConnectionState {
    /// Whether the manager is bound and polling.
    pub fn is_connected(&self) -> (r: bool)
        ensures
            r == (*self is Connected),
    {
        match self {
            ConnectionState::Connected => true,
            _ => false,
        }
    }
}

/// The outcome of a connection manager cycle (poll or bind attempt).
#[derive(Debug, Clone, Copy, PartialEq, Eq, Structural)]
pub enum ConnectionStatus {
    /// Data processed, stream ended, or bind successful.
    Success,
    /// Server indicated the session is dead (400, 404, 410).
    SessionInvalidated,
    /// Server indicated the token is expired (401).
    TokenExpired,
}

/// The successor of a 32-bit counter, wrapping at the top.
pub open spec fn next_u32(v: u32) -> u32 {
    if v == u32::MAX {
        0
    } else {
        (v + 1) as u32
    }
}

/// The session: its ids once bound, and the request counters.
///
/// `rid` numbers the requests of a session and `command_offset` the commands
/// sent in it; each request takes the current value and advances it.
#[derive(Debug)]
pub struct SessionState {
    pub sid: Option<String>,
    pub gsessionid: Option<String>,
    pub rid: u32,
    pub command_offset: u32,
}

/// A fresh session: no ids, `rid` 1, offset 0.
pub open spec fn is_fresh(s: SessionState) -> bool {
    s.sid is None && s.gsessionid is None && s.rid == 1 && s.command_offset == 0
}

impl Clone for SessionState {
    fn clone(&self) -> (r: Self)
        ensures
            r == *self,
    {
        SessionState {
            sid: copy_opt_string(&self.sid),
            gsessionid: copy_opt_string(&self.gsessionid),
            rid: self.rid,
            command_offset: self.command_offset,
        }
    }
}

impl SessionState {
    pub fn new() -> (r: Self)
        ensures
            is_fresh(r),
    {
        SessionState { sid: None, gsessionid: None, rid: 1, command_offset: 0 }
    }

    /// Whether the session is bound (has both ids).
    pub fn is_valid(&self) -> (r: bool)
        ensures
            r == (self.sid is Some && self.gsessionid is Some),
    {
        self.sid.is_some() && self.gsessionid.is_some()
    }

    /// The two ids, when the session has both.
    pub fn get_session_info(&self) -> (r: Option<(String, String)>)
        ensures
            match (self.sid, self.gsessionid) {
                (Some(s), Some(g)) => r == Some((s, g)),
                _ => r is None,
            },
    {
        match (&self.sid, &self.gsessionid) {
            (Some(s), Some(g)) => Some((s.clone(), g.clone())),
            _ => None,
        }
    }

    /// Takes the current request id and advances it.
    pub fn increment_rid(&mut self) -> (r: u32)
        ensures
            r == old(self).rid,
            final(self).rid == next_u32(old(self).rid),
            final(self).command_offset == old(self).command_offset,
            final(self).sid == old(self).sid,
            final(self).gsessionid == old(self).gsessionid,
    {
        let r = self.rid;
        self.rid = if r == u32::MAX { 0 } else { r + 1 };
        r
    }

    /// Takes the current command offset and advances it.
    pub fn increment_offset(&mut self) -> (r: u32)
        ensures
            r == old(self).command_offset,
            final(self).command_offset == next_u32(old(self).command_offset),
            final(self).rid == old(self).rid,
            final(self).sid == old(self).sid,
            final(self).gsessionid == old(self).gsessionid,
    {
        let r = self.command_offset;
        self.command_offset = if r == u32::MAX { 0 } else { r + 1 };
        r
    }

    /// Records the ids of a session just bound; the counters are kept.
    pub fn establish(&mut self, sid: String, gsessionid: String)
        ensures
            final(self).sid == Some(sid),
            final(self).gsessionid == Some(gsessionid),
            final(self).rid == old(self).rid,
            final(self).command_offset == old(self).command_offset,
    {
        self.sid = Some(sid);
        self.gsessionid = Some(gsessionid);
    }

    /// Records the ids of a session bound again; commands count from 0 anew.
    pub fn rebind(&mut self, sid: String, gsessionid: String)
        ensures
            final(self).sid == Some(sid),
            final(self).gsessionid == Some(gsessionid),
            final(self).rid == old(self).rid,
            final(self).command_offset == 0,
    {
        self.sid = Some(sid);
        self.gsessionid = Some(gsessionid);
        self.command_offset = 0;
    }

    /// Forgets the ids of a session the server no longer knows.
    pub fn clear_ids(&mut self)
        ensures
            final(self).sid is None,
            final(self).gsessionid is None,
            final(self).rid == old(self).rid,
            final(self).command_offset == old(self).command_offset,
    {
        self.sid = None;
        self.gsessionid = None;
    }
}

} // verus!
