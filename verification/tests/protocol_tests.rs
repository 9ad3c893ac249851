use youtube_lounge_rs::commands::command_form_fields;
use youtube_lounge_rs::form::{build_connect_form_data, build_rebind_form_data};
use youtube_lounge_rs::models::Screen;
use youtube_lounge_rs::protocol::{
    availability_outcome, command_response_result, first_screen, initial_bind_params,
    initial_bind_result, pairing_outcome, poll_params, poll_status_outcome, prepare_command,
    rebind_outcome, rebind_params, refresh_outcome, refreshed_token, reset_after_disconnect,
    terminate_body, terminate_params, BindOutcome,
};
use youtube_lounge_rs::state::SessionState;
use youtube_lounge_rs::utils::{extract_session_ids, session_ids_from_captures};
use youtube_lounge_rs::{ConnectionState, ConnectionStatus, LoungeError, PlaybackCommand};

fn pairs(v: &[(&str, &str)]) -> Vec<(String, String)> {
    v.iter().map(|(a, b)| (a.to_string(), b.to_string())).collect()
}

const BIND_BODY: &[u8] =
    b"190\n[[0,[\"c\",\"sid-ABC\",\"\",8]],[1,[\"S\",\"gsess-42\"]],[2,[\"loungeStatus\",{}]]]\n";

#[test]
fn session_ids_are_found_in_a_bind_body() {
    let (sid, gsid) = extract_session_ids(BIND_BODY).unwrap();
    assert_eq!(sid, Some("sid-ABC".to_string()));
    assert_eq!(gsid, Some("gsess-42".to_string()));
}

#[test]
fn session_ids_missing_or_in_invalid_utf8() {
    match extract_session_ids(b"[[0,[\"c\",\"only-sid\"]]]") {
        Err(LoungeError::InvalidResponse(m)) => assert_eq!(m, "Failed to obtain session IDs"),
        other => panic!("unexpected {:?}", other),
    }
    // invalid bytes are replaced, the ids are still found
    let mut body = vec![0xffu8];
    body.extend_from_slice(b"[\"c\",\"s1\"][\"S\",\"g1\"]");
    let (sid, gsid) = extract_session_ids(&body).unwrap();
    assert_eq!((sid.unwrap(), gsid.unwrap()), ("s1".to_string(), "g1".to_string()));
    assert!(session_ids_from_captures(Some("a".into()), None).is_err());
}

#[test]
fn connect_form_is_url_encoded() {
    let form = build_connect_form_data("My Remote", "dev-1", "tok/en").unwrap();
    assert_eq!(
        form,
        "app=youtube-desktop&mdx-version=3&name=My+Remote&id=dev-1&device=REMOTE_CONTROL&capabilities=que%2Cdsdtr%2Catp&magnaKey=cloudPairedDevice&ui=false&theme=cl&loungeIdToken=tok%2Fen"
    );
    let form = build_rebind_form_data("Caf\u{e9}", "d", "t").unwrap();
    assert!(form.starts_with("app=web&mdx-version=3&name=Caf%C3%A9&id=d&"));
    assert!(form.ends_with("&os_name=android&ms=&theme=cl&loungeIdToken=t"));
}

#[test]
fn availability_and_pairing_statuses() {
    assert!(matches!(availability_outcome(401), Err(LoungeError::TokenExpired)));
    assert_eq!(availability_outcome(200).unwrap(), true);
    assert_eq!(availability_outcome(503).unwrap(), false);
    assert!(pairing_outcome(200, "200 OK").is_ok());
    match pairing_outcome(404, "404 Not Found") {
        Err(LoungeError::InvalidResponse(m)) => {
            assert_eq!(m, "Failed to pair with screen: 404 Not Found")
        }
        other => panic!("unexpected {:?}", other),
    }
    assert!(matches!(refresh_outcome(401, "401 Unauthorized", ""), Err(LoungeError::TokenExpired)));
    match refresh_outcome(500, "500 Internal Server Error", "oops") {
        Err(LoungeError::InvalidResponse(m)) => {
            assert_eq!(m, "Failed to refresh token: 500 Internal Server Error: oops")
        }
        other => panic!("unexpected {:?}", other),
    }
}

#[test]
fn token_refresh_results() {
    let screen = Screen { name: None, screen_id: "s".into(), lounge_token: "new".into() };
    assert_eq!(first_screen(vec![screen.clone()]).unwrap().lounge_token, "new");
    match first_screen(vec![]) {
        Err(LoungeError::InvalidResponse(m)) => assert_eq!(m, "No screens returned"),
        other => panic!("unexpected {:?}", other),
    }
    assert_eq!(refreshed_token(Ok(screen)).unwrap(), "new");
    match refreshed_token(Err(LoungeError::TokenExpired)) {
        Err(e @ LoungeError::TokenRefreshFailed(_)) => {
            assert_eq!(e.message(), "Token refresh failed: Token expired (HTTP 401)")
        }
        other => panic!("unexpected {:?}", other),
    }
}

#[test]
fn initial_bind_statuses() {
    assert_eq!(initial_bind_params(), pairs(&[("RID", "1"), ("VER", "8"), ("CVER", "1"), ("auth_failure_option", "send_error"), ("TYPE", "xmlhttp")]));
    assert_eq!(
        initial_bind_result(200, BIND_BODY).unwrap(),
        ("sid-ABC".to_string(), "gsess-42".to_string())
    );
    assert!(matches!(initial_bind_result(401, b""), Err(LoungeError::TokenExpired)));
    match initial_bind_result(404, b"") {
        Err(LoungeError::InvalidResponse(m)) => assert_eq!(m, "Screen not found (404)"),
        other => panic!("unexpected {:?}", other),
    }
    match initial_bind_result(500, b"down") {
        Err(LoungeError::InvalidResponse(m)) => assert_eq!(m, "Initial bind failed: 500: down"),
        other => panic!("unexpected {:?}", other),
    }
    assert!(matches!(initial_bind_result(200, b"nothing"), Err(LoungeError::InvalidResponse(_))));
}

#[test]
fn rebind_takes_a_request_id_and_maps_statuses() {
    let mut session = SessionState::new();
    let params = rebind_params(&mut session);
    assert_eq!(params[0], ("RID".to_string(), "1".to_string()));
    assert_eq!(session.rid, 2);
    match rebind_outcome(200, "200 OK", BIND_BODY) {
        Ok(BindOutcome::Rebound { sid, gsessionid }) => {
            assert_eq!((sid.as_str(), gsessionid.as_str()), ("sid-ABC", "gsess-42"))
        }
        other => panic!("unexpected {:?}", other),
    }
    assert!(matches!(rebind_outcome(401, "", b""), Ok(BindOutcome::TokenExpired)));
    for s in [400u16, 404, 410] {
        assert!(matches!(rebind_outcome(s, "", b""), Ok(BindOutcome::SessionInvalidated)));
    }
    match rebind_outcome(502, "502 Bad Gateway", b"gw") {
        Err(LoungeError::InvalidResponse(m)) => assert_eq!(m, "Bind attempt failed: 502: gw"),
        other => panic!("unexpected {:?}", other),
    }
    match rebind_outcome(204, "204 No Content", b"") {
        Err(LoungeError::InvalidResponse(m)) => {
            assert_eq!(m, "Unexpected status 204 No Content during bind")
        }
        other => panic!("unexpected {:?}", other),
    }
}

#[test]
fn poll_query_and_statuses() {
    let q = poll_params("S", "G", "T", "Dev", 17);
    assert_eq!(q.len(), 12);
    assert_eq!(q[0], ("SID".to_string(), "S".to_string()));
    assert_eq!(q[11], ("AID".to_string(), "17".to_string()));
    assert!(poll_status_outcome(200, "200 OK", "").is_none());
    for s in [400u16, 404, 410] {
        assert!(matches!(poll_status_outcome(s, "", ""), Some(Ok(ConnectionStatus::SessionInvalidated))));
    }
    assert!(matches!(poll_status_outcome(401, "", ""), Some(Ok(ConnectionStatus::TokenExpired))));
    match poll_status_outcome(503, "503", "busy") {
        Some(Err(LoungeError::InvalidResponse(m))) => {
            assert_eq!(m, "Polling error status 503, body: busy")
        }
        other => panic!("unexpected {:?}", other),
    }
    match poll_status_outcome(206, "206 Partial Content", "") {
        Some(Err(LoungeError::InvalidResponse(m))) => {
            assert_eq!(m, "Unexpected status 206 Partial Content during poll")
        }
        other => panic!("unexpected {:?}", other),
    }
}

#[test]
fn commands_need_a_bound_connected_session() {
    let mut session = SessionState::new();
    let cmd = PlaybackCommand::Play;
    assert!(matches!(
        prepare_command(&ConnectionState::Connected, &mut session, &cmd, "t", 0, "n", "i"),
        Err(LoungeError::SessionLost)
    ));
    session.establish("S".into(), "G".into());
    assert!(matches!(
        prepare_command(&ConnectionState::Connecting, &mut session, &cmd, "t", 0, "n", "i"),
        Err(LoungeError::SessionLost)
    ));
    assert_eq!((session.rid, session.command_offset), (1, 0));

    let cmd = PlaybackCommand::SetVolume { volume: 35 };
    let req = prepare_command(&ConnectionState::Connected, &mut session, &cmd, "tok", 9, "Dev", "id1").unwrap();
    assert_eq!(
        req.params,
        pairs(&[
            ("SID", "S"), ("gsessionid", "G"), ("RID", "1"), ("VER", "8"), ("v", "2"),
            ("TYPE", "bind"), ("t", "1"), ("AID", "9"), ("CI", "0"), ("name", "Dev"),
            ("id", "id1"), ("device", "REMOTE_CONTROL"), ("loungeIdToken", "tok"),
        ])
    );
    assert_eq!(req.form, pairs(&[("count", "1"), ("ofs", "0"), ("req0__sc", "setVolume"), ("req0_volume", "35")]));
    let req2 = prepare_command(&ConnectionState::Connected, &mut session, &PlaybackCommand::Pause, "tok", 9, "Dev", "id1").unwrap();
    assert_eq!(req2.params[2].1, "2");
    assert_eq!(req2.form[1].1, "1");
    assert_eq!((session.rid, session.command_offset), (3, 2));
}

#[test]
fn set_playlist_form_fields() {
    let cmd = PlaybackCommand::set_playlist_with_index("PL1".into(), 4);
    assert_eq!(
        command_form_fields(&cmd, 7),
        pairs(&[
            ("count", "1"),
            ("ofs", "7"),
            ("req0__sc", "setPlaylist"),
            ("req0_videoId", ""),
            ("req0_currentIndex", "4"),
            ("req0_listId", "PL1"),
            ("req0_currentTime", "0"),
            ("req0_audioOnly", "false"),
            ("req0_prioritizeMobileSenderPlaybackStateOnConnection", "true"),
        ])
    );
    let cmd = PlaybackCommand::AddVideo { video_id: "v".into(), video_sources: Some("XX".into()) };
    assert_eq!(command_form_fields(&cmd, 0)[3..].to_vec(), pairs(&[("req0_videoId", "v"), ("req0_videoSources", "XX")]));
    let cmd = PlaybackCommand::SeekTo { new_time: "30.5".into() };
    assert_eq!(command_form_fields(&cmd, 0)[3..].to_vec(), pairs(&[("req0_newTime", "30.5")]));
    let cmd = PlaybackCommand::SetAutoplayMode { autoplay_mode: "ENABLED".into() };
    assert_eq!(command_form_fields(&cmd, 0)[3..].to_vec(), pairs(&[("req0_autoplayMode", "ENABLED")]));
    assert_eq!(command_form_fields(&PlaybackCommand::Unmute, 0)[2].1, "unMute");
}

#[test]
fn command_response_statuses() {
    assert!(command_response_result(200, "200 OK", "play", "").is_ok());
    assert!(matches!(command_response_result(400, "", "play", ""), Err(LoungeError::SessionInvalidatedByServer(400))));
    assert!(matches!(command_response_result(401, "", "play", ""), Err(LoungeError::TokenExpired)));
    assert!(matches!(command_response_result(404, "", "play", ""), Err(LoungeError::SessionInvalidatedByServer(404))));
    assert!(matches!(command_response_result(410, "", "play", ""), Err(LoungeError::ConnectionClosed)));
    match command_response_result(500, "500", "pause", "bad") {
        Err(LoungeError::InvalidResponse(m)) => {
            assert_eq!(m, "Command 'pause' failed with status 500 and response body:\nbad")
        }
        other => panic!("unexpected {:?}", other),
    }
    match command_response_result(202, "202 Accepted", "pause", "") {
        Err(LoungeError::InvalidResponse(m)) => {
            assert_eq!(m, "Unexpected status 202 Accepted sending command")
        }
        other => panic!("unexpected {:?}", other),
    }
}

#[test]
fn disconnecting() {
    let mut session = SessionState::new();
    assert!(terminate_params(&mut session, "n", "i", "t").is_none());
    assert_eq!(session.rid, 2);
    reset_after_disconnect(&mut session);
    assert_eq!(session.rid, 2);

    session.establish("S".into(), "G".into());
    let q = terminate_params(&mut session, "n", "i", "t").unwrap();
    assert_eq!(
        q,
        pairs(&[
            ("RID", "2"), ("VER", "8"), ("CVER", "1"), ("gsessionid", "G"), ("SID", "S"),
            ("auth_failure_option", "send_error"), ("name", "n"), ("id", "i"),
            ("device", "REMOTE_CONTROL"), ("loungeIdToken", "t"),
        ])
    );
    reset_after_disconnect(&mut session);
    assert!(session.sid.is_none() && session.gsessionid.is_none());
    assert_eq!((session.rid, session.command_offset), (1, 0));
    assert_eq!(
        terminate_body(),
        "ui=&TYPE=terminate&clientDisconnectReason=MDX_SESSION_DISCONNECT_REASON_DISCONNECTED_BY_USER"
    );
}

#[test]
fn error_messages() {
    let cases: Vec<(LoungeError, &str)> = vec![
        (LoungeError::RequestFailed("x".into()), "HTTP request failed: x"),
        (LoungeError::ParseFailed("x".into()), "JSON parsing failed: x"),
        (LoungeError::UrlEncodingFailed("x".into()), "URL encoding failed: x"),
        (LoungeError::NumericParseFailed("x".into()), "Numeric parsing failed: x"),
        (LoungeError::SessionLost, "Session not established or lost (Missing SID/GSID)"),
        (LoungeError::TokenExpired, "Token expired (HTTP 401)"),
        (LoungeError::ConnectionClosed, "Connection explicitly closed or terminated"),
        (LoungeError::InvalidResponse("Test error".into()), "Invalid response: Test error"),
        (LoungeError::IoError("x".into()), "I/O error: x"),
        (LoungeError::SessionInvalidatedByServer(410), "Server indicated session is invalid (HTTP 410)"),
        (
            LoungeError::TokenRefreshFailed(Box::new(LoungeError::ConnectionClosed)),
            "Token refresh failed: Connection explicitly closed or terminated",
        ),
        (LoungeError::TaskJoinError("x".into()), "Task panicked or cancelled"),
    ];
    for (e, text) in cases {
        assert_eq!(e.message(), text);
    }
    assert!(LoungeError::SessionLost.indicates_session_dead());
    assert!(LoungeError::SessionInvalidatedByServer(400).indicates_session_dead());
    assert!(LoungeError::ConnectionClosed.indicates_session_dead());
    assert!(!LoungeError::TokenExpired.indicates_session_dead());
}

#[test]
fn failed_bind_bodies_are_decoded_lossily() {
    match initial_bind_result(500, b"\xffoops") {
        Err(LoungeError::InvalidResponse(m)) => {
            assert_eq!(m, "Initial bind failed: 500: \u{FFFD}oops")
        }
        other => panic!("unexpected {:?}", other),
    }
    match rebind_outcome(503, "503 Service Unavailable", b"busy\xc3") {
        Err(LoungeError::InvalidResponse(m)) => {
            assert_eq!(m, "Bind attempt failed: 503: busy\u{FFFD}")
        }
        other => panic!("unexpected {:?}", other),
    }
}
