use youtube_lounge_rs::manager::{
    after_cycle, after_refresh, connect_refresh_failed, initial_connection_failed, needs_token_refresh,
    next_cycle, retry_after_refresh, ManagerAction, MAX_BACKOFF_MS, MIN_BACKOFF_MS,
};
use youtube_lounge_rs::state::SessionState;
use youtube_lounge_rs::{ConnectionState, ConnectionStatus, LoungeError};

#[test]
fn success_resets_the_backoff() {
    let mut s = SessionState::new();
    let step = after_cycle(&mut s, 8000, &Ok(ConnectionStatus::Success));
    assert_eq!(step.action, ManagerAction::Continue);
    assert_eq!(step.next_backoff_ms, MIN_BACKOFF_MS);
    assert!(!step.screen_disconnected);
}

#[test]
fn failures_double_the_backoff_up_to_the_cap() {
    let mut s = SessionState::new();
    let mut b = MIN_BACKOFF_MS;
    let mut seen = vec![];
    for _ in 0..10 {
        let step = after_cycle(&mut s, b, &Err(LoungeError::RequestFailed("x".into())));
        assert_eq!(step.action, ManagerAction::BackOff { base_ms: b });
        b = step.next_backoff_ms;
        seen.push(b);
    }
    assert_eq!(seen, vec![1000, 2000, 4000, 8000, 16000, 32000, 60000, 60000, 60000, 60000]);
    assert_eq!(MAX_BACKOFF_MS, 60000);
}

#[test]
fn invalidated_sessions_are_cleared() {
    let mut s = SessionState::new();
    s.establish("S".into(), "G".into());
    let step = after_cycle(&mut s, 500, &Ok(ConnectionStatus::SessionInvalidated));
    assert!(s.sid.is_none() && s.gsessionid.is_none());
    assert!(step.screen_disconnected);
    assert_eq!(step.announce, vec![ConnectionState::Connecting]);
    assert_eq!(step.next_backoff_ms, 1000);

    let mut s = SessionState::new();
    s.establish("S".into(), "G".into());
    let step = after_cycle(&mut s, 500, &Err(LoungeError::IoError("bad frame".into())));
    assert!(step.screen_disconnected);
    assert!(s.sid.is_none());
    let step = after_cycle(&mut s, 500, &Err(LoungeError::IoError("bad frame".into())));
    assert!(!step.screen_disconnected);
}

#[test]
fn token_expiry_asks_for_a_refresh() {
    let mut s = SessionState::new();
    let step = after_cycle(&mut s, 2000, &Ok(ConnectionStatus::TokenExpired));
    assert_eq!(step.action, ManagerAction::RefreshToken);
    assert_eq!(step.next_backoff_ms, 2000);
    let step = after_refresh(2000, &Ok(()));
    assert_eq!((step.action, step.next_backoff_ms), (ManagerAction::Continue, MIN_BACKOFF_MS));
    let err = LoungeError::TokenRefreshFailed(Box::new(LoungeError::TokenExpired));
    let step = after_refresh(2000, &Err(err));
    assert_eq!(step.action, ManagerAction::BackOff { base_ms: 2000 });
    assert_eq!(
        step.announce,
        vec![ConnectionState::Failed(
            "Token refresh failed: Token refresh failed: Token expired (HTTP 401)".into()
        )]
    );
    assert_eq!(step.next_backoff_ms, 4000);
}

#[test]
fn closed_connections_continue() {
    let mut s = SessionState::new();
    s.establish("S".into(), "G".into());
    let step = after_cycle(&mut s, 4000, &Err(LoungeError::ConnectionClosed));
    assert_eq!((step.action, step.next_backoff_ms), (ManagerAction::Continue, 4000));
    assert!(s.is_valid());
}

#[test]
fn cycles_and_retries() {
    let mut s = SessionState::new();
    assert_eq!(next_cycle(&s), (None, ConnectionState::Connecting));
    s.establish("S".into(), "G".into());
    assert_eq!(next_cycle(&s), (Some(("S".into(), "G".into())), ConnectionState::Connected));
    assert!(needs_token_refresh::<()>(&Err(LoungeError::TokenExpired)));
    assert!(!needs_token_refresh::<()>(&Err(LoungeError::SessionLost)));
    assert!(!needs_token_refresh(&Ok(())));
    assert!(retry_after_refresh(&ConnectionState::Connected).is_ok());
    assert!(matches!(retry_after_refresh(&ConnectionState::Stopping), Err(LoungeError::SessionLost)));
    assert_eq!(
        initial_connection_failed(&LoungeError::TokenExpired),
        ConnectionState::Failed("Initial connection failed: Token expired (HTTP 401)".into())
    );
    assert_eq!(
        connect_refresh_failed(&LoungeError::TokenRefreshFailed(Box::new(LoungeError::SessionLost))),
        ConnectionState::Failed(
            "Token refresh failed: Token refresh failed: Session not established or lost (Missing SID/GSID)".into()
        )
    );
}

#[test]
fn session_counters() {
    let mut s = SessionState::new();
    assert_eq!((s.rid, s.command_offset), (1, 0));
    assert_eq!(s.increment_rid(), 1);
    assert_eq!(s.increment_rid(), 2);
    assert_eq!(s.increment_offset(), 0);
    s.rid = u32::MAX;
    assert_eq!(s.increment_rid(), u32::MAX);
    assert_eq!(s.rid, 0);
    s.rebind("A".into(), "B".into());
    assert_eq!(s.command_offset, 0);
    assert_eq!(s.get_session_info(), Some(("A".to_string(), "B".to_string())));
    s.clear_ids();
    assert!(!s.is_valid());
}
