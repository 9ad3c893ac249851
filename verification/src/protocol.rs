//! The request and response rules of the Lounge API: which parameters each
//! request carries, and what each response status means.

use vstd::prelude::*;
use crate::commands::{command_form, command_form_fields, command_name, get_command_name, lemma_sends_at, pairs_view, push_pair, sends, Pair, PlaybackCommand};
use crate::error::LoungeError;
use crate::models::Screen;
use crate::state::{next_u32, ConnectionState, ConnectionStatus, SessionState};
use crate::text::{decimal, format_u64};
use crate::utils::{extract_session_ids, failed_to_obtain_ids, lossy_text, regex_first_group, utf8_lossy, GSESSIONID_PATTERN, SID_PATTERN};

verus! {

/// A 2xx status.
pub open spec fn is_success(status: u16) -> bool {
    200 <= status <= 299
}

fn join3(a: &str, b: &str, c: &str) -> (r: String)
    ensures
        r@ == a@ + b@ + c@,
{
    let mut r = a.to_string();
    r.append(b);
    r.append(c);
    r
}

fn join4(a: &str, b: &str, c: &str, d: &str) -> (r: String)
    ensures
        r@ == a@ + b@ + c@ + d@,
{
    let mut r = join3(a, b, c);
    r.append(d);
    r
}

// ---------------------------------------------------------------- pairing and tokens

/// What a screen availability check answers: expired on 401, else whether it succeeded.
pub fn availability_outcome(status: u16) -> (r: Result<bool, LoungeError>)
    ensures
        status == 401 ==> (r matches Err(LoungeError::TokenExpired)),
        status != 401 ==> r == Ok::<bool, LoungeError>(is_success(status)),
{
    if status == 401 {
        Err(LoungeError::TokenExpired)
    } else {
        Ok(200 <= status && status <= 299)
    }
}

/// What the status of a pairing request means; `status_text` is the status as displayed.
pub fn pairing_outcome(status: u16, status_text: &str) -> (r: Result<(), LoungeError>)
    ensures
        is_success(status) ==> r is Ok,
        !is_success(status) ==> (r matches Err(LoungeError::InvalidResponse(m)) && m@
            == "Failed to pair with screen: "@ + status_text@),
{
    if 200 <= status && status <= 299 {
        Ok(())
    } else {
        let mut m = "Failed to pair with screen: ".to_string();
        m.append(status_text);
        Err(LoungeError::InvalidResponse(m))
    }
}

/// What the status of a token refresh request means, with the body of a failed one.
pub fn refresh_outcome(status: u16, status_text: &str, body: &str) -> (r: Result<(), LoungeError>)
    ensures
        is_success(status) ==> r is Ok,
        !is_success(status) && status == 401 ==> (r matches Err(LoungeError::TokenExpired)),
        !is_success(status) && status != 401 ==> (r matches Err(LoungeError::InvalidResponse(m))
            && m@ == "Failed to refresh token: "@ + status_text@ + ": "@ + body@),
{
    if 200 <= status && status <= 299 {
        Ok(())
    } else if status == 401 {
        Err(LoungeError::TokenExpired)
    } else {
        Err(LoungeError::InvalidResponse(join4("Failed to refresh token: ", status_text, ": ", body)))
    }
}

/// The first screen of a token refresh answer.
pub fn first_screen(screens: Vec<Screen>) -> (r: Result<Screen, LoungeError>)
    ensures
        screens@.len() > 0 ==> r == Ok::<Screen, LoungeError>(screens@[0]),
        screens@.len() == 0 ==> (r matches Err(LoungeError::InvalidResponse(m)) && m@
            == "No screens returned"@),
{
    let mut screens = screens;
    if screens.len() == 0 {
        Err(LoungeError::InvalidResponse("No screens returned".to_string()))
    } else {
        Ok(screens.swap_remove(0))
    }
}

/// The token a refresh produced, or the error that stopped it (wrapped as a refresh failure).
pub fn refreshed_token(refresh: Result<Screen, LoungeError>) -> (r: Result<String, LoungeError>)
    ensures
        match refresh {
            Ok(s) => r == Ok::<String, LoungeError>(s.lounge_token),
            Err(e) => r matches Err(LoungeError::TokenRefreshFailed(inner)) && *inner == e,
        },
{
    match refresh {
        Ok(screen) => Ok(screen.lounge_token),
        Err(e) => Err(LoungeError::TokenRefreshFailed(Box::new(e))),
    }
}

// ---------------------------------------------------------------- binding

/// The query of the first bind request.
pub open spec fn initial_bind_query() -> Seq<Pair> {
    seq![
        ("RID"@, "1"@),
        ("VER"@, "8"@),
        ("CVER"@, "1"@),
        ("auth_failure_option"@, "send_error"@),
        ("TYPE"@, "xmlhttp"@),
    ]
}

pub fn initial_bind_params() -> (r: Vec<(String, String)>)
    ensures
        pairs_view(r@) == initial_bind_query(),
{
    let mut v: Vec<(String, String)> = Vec::new();
    push_pair(&mut v, "RID", "1".to_string());
    push_pair(&mut v, "VER", "8".to_string());
    push_pair(&mut v, "CVER", "1".to_string());
    push_pair(&mut v, "auth_failure_option", "send_error".to_string());
    push_pair(&mut v, "TYPE", "xmlhttp".to_string());
    assert(pairs_view(v@) =~= initial_bind_query());
    v
}

/// The ids a bind response body holds, as `extract_session_ids` finds them.
pub open spec fn bound_ids(body: Seq<u8>) -> Option<(Seq<char>, Seq<char>)> {
    let text = utf8_lossy(body);
    match (regex_first_group(SID_PATTERN@, text), regex_first_group(GSESSIONID_PATTERN@, text)) {
        (Some(s), Some(g)) => Some((s, g)),
        _ => None,
    }
}

/// What the first bind's response means: the two ids, or why there are none.
pub fn initial_bind_result(status: u16, body: &[u8]) -> (r: Result<(String, String), LoungeError>)
    ensures
        status == 401 ==> (r matches Err(LoungeError::TokenExpired)),
        status == 404 ==> (r matches Err(LoungeError::InvalidResponse(m)) && m@
            == "Screen not found (404)"@),
        status != 401 && status != 404 && !is_success(status) ==> (r matches Err(
            LoungeError::InvalidResponse(m),
        ) && m@ == "Initial bind failed: "@ + decimal(status as nat) + ": "@ + utf8_lossy(body@)),
        is_success(status) ==> match bound_ids(body@) {
            Some((s, g)) => r matches Ok((s2, g2)) && s2@ == s && g2@ == g,
            None => r matches Err(LoungeError::InvalidResponse(m)) && m@ == failed_to_obtain_ids(),
        },
{
    if status == 401 {
        return Err(LoungeError::TokenExpired);
    }
    if status == 404 {
        return Err(LoungeError::InvalidResponse("Screen not found (404)".to_string()));
    }
    if !(200 <= status && status <= 299) {
        let text = lossy_text(body);
        let code = format_u64(status as u64);
        return Err(LoungeError::InvalidResponse(join4("Initial bind failed: ", code.as_str(), ": ", text.as_str())));
    }
    match extract_session_ids(body) {
        Ok((Some(sid), Some(gsessionid))) => Ok((sid, gsessionid)),
        Ok(_) => Err(LoungeError::InvalidResponse("Failed to extract session IDs from bind response".to_string())),
        Err(e) => Err(e),
    }
}

/// The query of a bind request by the connection manager, numbered `rid`.
pub open spec fn rebind_query(rid: u32) -> Seq<Pair> {
    seq![
        ("RID"@, decimal(rid as nat)),
        ("VER"@, "8"@),
        ("CVER"@, "1"@),
        ("auth_failure_option"@, "send_error"@),
        ("TYPE"@, "bind"@),
    ]
}

/// The query of a bind request by the connection manager; it takes the next request id.
pub fn rebind_params(session: &mut SessionState) -> (r: Vec<(String, String)>)
    ensures
        pairs_view(r@) == rebind_query(old(session).rid),
        final(session).rid == next_u32(old(session).rid),
        final(session).command_offset == old(session).command_offset,
        final(session).sid == old(session).sid,
        final(session).gsessionid == old(session).gsessionid,
{
    let rid = session.increment_rid();
    let mut v: Vec<(String, String)> = Vec::new();
    push_pair(&mut v, "RID", format_u64(rid as u64));
    push_pair(&mut v, "VER", "8".to_string());
    push_pair(&mut v, "CVER", "1".to_string());
    push_pair(&mut v, "auth_failure_option", "send_error".to_string());
    push_pair(&mut v, "TYPE", "bind".to_string());
    assert(pairs_view(v@) =~= rebind_query(rid));
    v
}

/// What a bind by the connection manager achieved.
#[derive(Debug)]
pub enum BindOutcome {
    /// The session is bound again, with these ids.
    Rebound { sid: String, gsessionid: String },
    /// The token is no longer accepted.
    TokenExpired,
    /// The server will not bind this session.
    SessionInvalidated,
}

/// What the response to a bind by the connection manager means.
pub fn rebind_outcome(status: u16, status_text: &str, body: &[u8]) -> (r: Result<BindOutcome, LoungeError>)
    ensures
        status == 200 ==> match bound_ids(body@) {
            Some((s, g)) => r matches Ok(BindOutcome::Rebound { sid, gsessionid }) && sid@ == s
                && gsessionid@ == g,
            None => r matches Err(LoungeError::InvalidResponse(m)) && m@ == failed_to_obtain_ids(),
        },
        status == 401 ==> (r matches Ok(BindOutcome::TokenExpired)),
        (status == 400 || status == 404 || status == 410) ==> (r matches Ok(
            BindOutcome::SessionInvalidated,
        )),
        status != 400 && status != 401 && status != 404 && status != 410 && !is_success(status)
            ==> (r matches Err(LoungeError::InvalidResponse(m)) && m@ == "Bind attempt failed: "@
            + decimal(status as nat) + ": "@ + utf8_lossy(body@)),
        status != 200 && is_success(status) ==> (r matches Err(LoungeError::InvalidResponse(m))
            && m@ == "Unexpected status "@ + status_text@ + " during bind"@),
{
    if status == 200 {
        match extract_session_ids(body) {
            Ok((Some(sid), Some(gsessionid))) => Ok(BindOutcome::Rebound { sid, gsessionid }),
            Ok(_) => Err(LoungeError::InvalidResponse("Failed to extract session IDs from bind response".to_string())),
            Err(e) => Err(e),
        }
    } else if status == 401 {
        Ok(BindOutcome::TokenExpired)
    } else if status == 404 || status == 400 || status == 410 {
        Ok(BindOutcome::SessionInvalidated)
    } else if !(200 <= status && status <= 299) {
        let text = lossy_text(body);
        let code = format_u64(status as u64);
        Err(LoungeError::InvalidResponse(join4("Bind attempt failed: ", code.as_str(), ": ", text.as_str())))
    } else {
        Err(LoungeError::InvalidResponse(join3("Unexpected status ", status_text, " during bind")))
    }
}

// ---------------------------------------------------------------- polling

/// The query of a long poll for events.
pub open spec fn poll_query(sid: Seq<char>, gsessionid: Seq<char>, token: Seq<char>, device_name: Seq<char>, aid: u32) -> Seq<Pair> {
    seq![
        ("SID"@, sid),
        ("gsessionid"@, gsessionid),
        ("RID"@, "rpc"@),
        ("VER"@, "8"@),
        ("v"@, "2"@),
        ("device"@, "REMOTE_CONTROL"@),
        ("app"@, "youtube-desktop"@),
        ("loungeIdToken"@, token),
        ("name"@, device_name),
        ("CI"@, "0"@),
        ("TYPE"@, "xmlhttp"@),
        ("AID"@, decimal(aid as nat)),
    ]
}

pub fn poll_params(sid: &str, gsessionid: &str, token: &str, device_name: &str, aid: u32) -> (r: Vec<(String, String)>)
    ensures
        pairs_view(r@) == poll_query(sid@, gsessionid@, token@, device_name@, aid),
{
    let mut v: Vec<(String, String)> = Vec::new();
    push_pair(&mut v, "SID", sid.to_string());
    push_pair(&mut v, "gsessionid", gsessionid.to_string());
    push_pair(&mut v, "RID", "rpc".to_string());
    push_pair(&mut v, "VER", "8".to_string());
    push_pair(&mut v, "v", "2".to_string());
    push_pair(&mut v, "device", "REMOTE_CONTROL".to_string());
    push_pair(&mut v, "app", "youtube-desktop".to_string());
    push_pair(&mut v, "loungeIdToken", token.to_string());
    push_pair(&mut v, "name", device_name.to_string());
    push_pair(&mut v, "CI", "0".to_string());
    push_pair(&mut v, "TYPE", "xmlhttp".to_string());
    push_pair(&mut v, "AID", format_u64(aid as u64));
    assert(pairs_view(v@) =~= poll_query(sid@, gsessionid@, token@, device_name@, aid));
    v
}

/// What the status of a poll means: `None` to read the event stream (200),
/// else how the poll cycle ends.
pub fn poll_status_outcome(status: u16, status_text: &str, body: &str) -> (r: Option<Result<ConnectionStatus, LoungeError>>)
    ensures
        status == 200 ==> r is None,
        (status == 400 || status == 404 || status == 410) ==> r == Some(Ok::<ConnectionStatus, LoungeError>(ConnectionStatus::SessionInvalidated)),
        status == 401 ==> r == Some(Ok::<ConnectionStatus, LoungeError>(ConnectionStatus::TokenExpired)),
        status != 400 && status != 401 && status != 404 && status != 410 && !is_success(status)
            ==> (r matches Some(Err(LoungeError::InvalidResponse(m))) && m@ == "Polling error status "@
            + decimal(status as nat) + ", body: "@ + body@),
        status != 200 && is_success(status) ==> (r matches Some(Err(LoungeError::InvalidResponse(m)))
            && m@ == "Unexpected status "@ + status_text@ + " during poll"@),
{
    if status == 200 {
        None
    } else if status == 400 || status == 404 || status == 410 {
        Some(Ok(ConnectionStatus::SessionInvalidated))
    } else if status == 401 {
        Some(Ok(ConnectionStatus::TokenExpired))
    } else if !(200 <= status && status <= 299) {
        let code = format_u64(status as u64);
        Some(Err(LoungeError::InvalidResponse(join4("Polling error status ", code.as_str(), ", body: ", body))))
    } else {
        Some(Err(LoungeError::InvalidResponse(join3("Unexpected status ", status_text, " during poll"))))
    }
}

// ---------------------------------------------------------------- commands

/// A command request: its query and its form.
#[derive(Debug)]
pub struct CommandRequest {
    pub params: Vec<(String, String)>,
    pub form: Vec<(String, String)>,
}

/// The query of a command request numbered `rid`.
pub open spec fn command_query(
    sid: Seq<char>,
    gsessionid: Seq<char>,
    rid: u32,
    aid: u32,
    device_name: Seq<char>,
    device_id: Seq<char>,
    token: Seq<char>,
) -> Seq<Pair> {
    seq![
        ("SID"@, sid),
        ("gsessionid"@, gsessionid),
        ("RID"@, decimal(rid as nat)),
        ("VER"@, "8"@),
        ("v"@, "2"@),
        ("TYPE"@, "bind"@),
        ("t"@, "1"@),
        ("AID"@, decimal(aid as nat)),
        ("CI"@, "0"@),
        ("name"@, device_name),
        ("id"@, device_id),
        ("device"@, "REMOTE_CONTROL"@),
        ("loungeIdToken"@, token),
    ]
}

/// Prepares a command request: only while connected and bound, taking the
/// next request id and the next command offset.
pub fn prepare_command(
    conn: &ConnectionState,
    session: &mut SessionState,
    command: &PlaybackCommand,
    token: &str,
    aid: u32,
    device_name: &str,
    device_id: &str,
) -> (r: Result<CommandRequest, LoungeError>)
    ensures
        !(*conn is Connected) || old(session).sid is None || old(session).gsessionid is None
            ==> (r matches Err(LoungeError::SessionLost) && *final(session) == *old(session)),
        (*conn is Connected) && old(session).sid is Some && old(session).gsessionid is Some ==> {
            &&& r matches Ok(req)
            &&& pairs_view(req.params@) == command_query(
                old(session).sid->0@,
                old(session).gsessionid->0@,
                old(session).rid,
                aid,
                device_name@,
                device_id@,
                token@,
            )
            &&& pairs_view(req.form@) == command_form(*command, old(session).command_offset)
            &&& final(session).rid == next_u32(old(session).rid)
            &&& final(session).command_offset == next_u32(old(session).command_offset)
            &&& final(session).sid == old(session).sid
            &&& final(session).gsessionid == old(session).gsessionid
        },
{
    if !conn.is_connected() {
        return Err(LoungeError::SessionLost);
    }
    let (sid, gsessionid) = match session.get_session_info() {
        Some(ids) => ids,
        None => {
            return Err(LoungeError::SessionLost);
        },
    };
    let rid = session.increment_rid();
    let ofs = session.increment_offset();
    let mut params: Vec<(String, String)> = Vec::new();
    push_pair(&mut params, "SID", sid);
    push_pair(&mut params, "gsessionid", gsessionid);
    push_pair(&mut params, "RID", format_u64(rid as u64));
    push_pair(&mut params, "VER", "8".to_string());
    push_pair(&mut params, "v", "2".to_string());
    push_pair(&mut params, "TYPE", "bind".to_string());
    push_pair(&mut params, "t", "1".to_string());
    push_pair(&mut params, "AID", format_u64(aid as u64));
    push_pair(&mut params, "CI", "0".to_string());
    push_pair(&mut params, "name", device_name.to_string());
    push_pair(&mut params, "id", device_id.to_string());
    push_pair(&mut params, "device", "REMOTE_CONTROL".to_string());
    push_pair(&mut params, "loungeIdToken", token.to_string());
    let form = command_form_fields(command, ofs);
    proof {
        assert(pairs_view(params@) =~= command_query(
            old(session).sid->0@,
            old(session).gsessionid->0@,
            old(session).rid,
            aid,
            device_name@,
            device_id@,
            token@,
        ));
    }
    Ok(CommandRequest { params, form })
}

/// What the response to a command means; `name` is the command's name.
pub fn command_response_result(status: u16, status_text: &str, name: &str, body: &str) -> (r: Result<(), LoungeError>)
    ensures
        status == 200 ==> r is Ok,
        status == 400 ==> (r matches Err(LoungeError::SessionInvalidatedByServer(400))),
        status == 401 ==> (r matches Err(LoungeError::TokenExpired)),
        status == 404 ==> (r matches Err(LoungeError::SessionInvalidatedByServer(404))),
        status == 410 ==> (r matches Err(LoungeError::ConnectionClosed)),
        status != 400 && status != 401 && status != 404 && status != 410 && !is_success(status)
            ==> (r matches Err(LoungeError::InvalidResponse(m)) && m@ == "Command '"@ + name@
            + "' failed with status "@ + decimal(status as nat) + " and response body:\n"@ + body@),
        status != 200 && is_success(status) ==> (r matches Err(LoungeError::InvalidResponse(m))
            && m@ == "Unexpected status "@ + status_text@ + " sending command"@),
{
    if status == 200 {
        Ok(())
    } else if status == 400 {
        Err(LoungeError::SessionInvalidatedByServer(400))
    } else if status == 401 {
        Err(LoungeError::TokenExpired)
    } else if status == 404 {
        Err(LoungeError::SessionInvalidatedByServer(404))
    } else if status == 410 {
        Err(LoungeError::ConnectionClosed)
    } else if !(200 <= status && status <= 299) {
        let code = format_u64(status as u64);
        let mut m = join3("Command '", name, "' failed with status ");
        m.append(code.as_str());
        m.append(" and response body:\n");
        m.append(body);
        Err(LoungeError::InvalidResponse(m))
    } else {
        Err(LoungeError::InvalidResponse(join3("Unexpected status ", status_text, " sending command")))
    }
}

// ---------------------------------------------------------------- disconnecting

/// The body of a terminate request.
pub open spec fn terminate_body_spec() -> Seq<char> {
    "ui=&TYPE=terminate&clientDisconnectReason=MDX_SESSION_DISCONNECT_REASON_DISCONNECTED_BY_USER"@
}

pub fn terminate_body() -> (r: String)
    ensures
        r@ == terminate_body_spec(),
{
    "ui=&TYPE=terminate&clientDisconnectReason=MDX_SESSION_DISCONNECT_REASON_DISCONNECTED_BY_USER".to_string()
}

/// The query of a terminate request numbered `rid`.
pub open spec fn terminate_query(
    rid: u32,
    gsessionid: Seq<char>,
    sid: Seq<char>,
    device_name: Seq<char>,
    device_id: Seq<char>,
    token: Seq<char>,
) -> Seq<Pair> {
    seq![
        ("RID"@, decimal(rid as nat)),
        ("VER"@, "8"@),
        ("CVER"@, "1"@),
        ("gsessionid"@, gsessionid),
        ("SID"@, sid),
        ("auth_failure_option"@, "send_error"@),
        ("name"@, device_name),
        ("id"@, device_id),
        ("device"@, "REMOTE_CONTROL"@),
        ("loungeIdToken"@, token),
    ]
}

/// The query of the terminate request sent on disconnecting, when the
/// session is bound; a request id is taken either way.
pub fn terminate_params(session: &mut SessionState, device_name: &str, device_id: &str, token: &str) -> (r: Option<Vec<(String, String)>>)
    ensures
        final(session).rid == next_u32(old(session).rid),
        final(session).command_offset == old(session).command_offset,
        final(session).sid == old(session).sid,
        final(session).gsessionid == old(session).gsessionid,
        match (old(session).sid, old(session).gsessionid) {
            (Some(s), Some(g)) => r matches Some(v) && pairs_view(v@) == terminate_query(
                old(session).rid,
                g@,
                s@,
                device_name@,
                device_id@,
                token@,
            ),
            _ => r is None,
        },
{
    let ids = session.get_session_info();
    let rid = session.increment_rid();
    match ids {
        Some((sid, gsessionid)) => {
            let mut v: Vec<(String, String)> = Vec::new();
            push_pair(&mut v, "RID", format_u64(rid as u64));
            push_pair(&mut v, "VER", "8".to_string());
            push_pair(&mut v, "CVER", "1".to_string());
            push_pair(&mut v, "gsessionid", gsessionid);
            push_pair(&mut v, "SID", sid);
            push_pair(&mut v, "auth_failure_option", "send_error".to_string());
            push_pair(&mut v, "name", device_name.to_string());
            push_pair(&mut v, "id", device_id.to_string());
            push_pair(&mut v, "device", "REMOTE_CONTROL".to_string());
            push_pair(&mut v, "loungeIdToken", token.to_string());
            proof {
                assert(pairs_view(v@) =~= terminate_query(
                    old(session).rid,
                    old(session).gsessionid->0@,
                    old(session).sid->0@,
                    device_name@,
                    device_id@,
                    token@,
                ));
            }
            Some(v)
        },
        None => None,
    }
}

/// After disconnecting: a bound (or half-bound) session starts afresh; an
/// unbound one is kept.
pub fn reset_after_disconnect(session: &mut SessionState)
    ensures
        old(session).sid is Some || old(session).gsessionid is Some ==> crate::state::is_fresh(
            *final(session),
        ),
        old(session).sid is None && old(session).gsessionid is None ==> *final(session) == *old(
            session,
        ),
{
    if session.sid.is_some() || session.gsessionid.is_some() {
        *session = SessionState::new();
    }
}

// ---------------------------------------------------------------- thumbnails

/// The URL of a video's thumbnail.
pub open spec fn thumbnail_url_spec(video_id: Seq<char>, idx: u8) -> Seq<char> {
    "https://img.youtube.com/vi/"@ + video_id + "/"@ + decimal(idx as nat) + ".jpg"@
}

/// The URL of thumbnail number `thumbnail_idx` of a video.
pub fn get_thumbnail_url(video_id: &str, thumbnail_idx: u8) -> (r: String)
    ensures
        r@ == thumbnail_url_spec(video_id@, thumbnail_idx),
{
    let idx = format_u64(thumbnail_idx as u64);
    let mut r = join4("https://img.youtube.com/vi/", video_id, "/", idx.as_str());
    r.append(".jpg");
    r
}


// ---------------------------------------------------------------- laws

/// The long poll carries each of its arguments under its own name (the SID,
/// the gsessionid, the token, the device name and the AID in decimal), and
/// names the client a remote control.
pub proof fn lemma_poll_query_fields(sid: Seq<char>, gsessionid: Seq<char>, token: Seq<char>, device_name: Seq<char>, aid: u32)
    ensures
        ({
            let q = poll_query(sid, gsessionid, token, device_name, aid);
            sends(q, "SID"@, sid)
            && sends(q, "gsessionid"@, gsessionid)
            && sends(q, "loungeIdToken"@, token)
            && sends(q, "name"@, device_name)
            && sends(q, "AID"@, decimal(aid as nat))
            && sends(q, "device"@, "REMOTE_CONTROL"@)
        }),
{
    reveal_strlit("AID");
    reveal_strlit("CI");
    reveal_strlit("RID");
    reveal_strlit("SID");
    reveal_strlit("TYPE");
    reveal_strlit("VER");
    reveal_strlit("app");
    reveal_strlit("device");
    reveal_strlit("gsessionid");
    reveal_strlit("loungeIdToken");
    reveal_strlit("name");
    reveal_strlit("v");
    let q = poll_query(sid, gsessionid, token, device_name, aid);
    assert forall|i: int| 0 <= i < q.len() && i != 0 implies (#[trigger] q[i]).0 != "SID"@ by {
        if i == 1 {
            assert(q[i].0.len() != "SID"@.len());
        } else if i == 2 {
            assert(q[i].0[0] != "SID"@[0]);
        } else if i == 3 {
            assert(q[i].0[0] != "SID"@[0]);
        } else if i == 4 {
            assert(q[i].0.len() != "SID"@.len());
        } else if i == 5 {
            assert(q[i].0.len() != "SID"@.len());
        } else if i == 6 {
            assert(q[i].0[0] != "SID"@[0]);
        } else if i == 7 {
            assert(q[i].0.len() != "SID"@.len());
        } else if i == 8 {
            assert(q[i].0.len() != "SID"@.len());
        } else if i == 9 {
            assert(q[i].0.len() != "SID"@.len());
        } else if i == 10 {
            assert(q[i].0.len() != "SID"@.len());
        } else if i == 11 {
            assert(q[i].0[0] != "SID"@[0]);
        }
    }
    lemma_sends_at(q, "SID"@, sid, 0);
    assert forall|i: int| 0 <= i < q.len() && i != 1 implies (#[trigger] q[i]).0 != "gsessionid"@ by {
        if i == 0 {
            assert(q[i].0.len() != "gsessionid"@.len());
        } else if i == 2 {
            assert(q[i].0.len() != "gsessionid"@.len());
        } else if i == 3 {
            assert(q[i].0.len() != "gsessionid"@.len());
        } else if i == 4 {
            assert(q[i].0.len() != "gsessionid"@.len());
        } else if i == 5 {
            assert(q[i].0.len() != "gsessionid"@.len());
        } else if i == 6 {
            assert(q[i].0.len() != "gsessionid"@.len());
        } else if i == 7 {
            assert(q[i].0.len() != "gsessionid"@.len());
        } else if i == 8 {
            assert(q[i].0.len() != "gsessionid"@.len());
        } else if i == 9 {
            assert(q[i].0.len() != "gsessionid"@.len());
        } else if i == 10 {
            assert(q[i].0.len() != "gsessionid"@.len());
        } else if i == 11 {
            assert(q[i].0.len() != "gsessionid"@.len());
        }
    }
    lemma_sends_at(q, "gsessionid"@, gsessionid, 1);
    assert forall|i: int| 0 <= i < q.len() && i != 7 implies (#[trigger] q[i]).0 != "loungeIdToken"@ by {
        if i == 0 {
            assert(q[i].0.len() != "loungeIdToken"@.len());
        } else if i == 1 {
            assert(q[i].0.len() != "loungeIdToken"@.len());
        } else if i == 2 {
            assert(q[i].0.len() != "loungeIdToken"@.len());
        } else if i == 3 {
            assert(q[i].0.len() != "loungeIdToken"@.len());
        } else if i == 4 {
            assert(q[i].0.len() != "loungeIdToken"@.len());
        } else if i == 5 {
            assert(q[i].0.len() != "loungeIdToken"@.len());
        } else if i == 6 {
            assert(q[i].0.len() != "loungeIdToken"@.len());
        } else if i == 8 {
            assert(q[i].0.len() != "loungeIdToken"@.len());
        } else if i == 9 {
            assert(q[i].0.len() != "loungeIdToken"@.len());
        } else if i == 10 {
            assert(q[i].0.len() != "loungeIdToken"@.len());
        } else if i == 11 {
            assert(q[i].0.len() != "loungeIdToken"@.len());
        }
    }
    lemma_sends_at(q, "loungeIdToken"@, token, 7);
    assert forall|i: int| 0 <= i < q.len() && i != 8 implies (#[trigger] q[i]).0 != "name"@ by {
        if i == 0 {
            assert(q[i].0.len() != "name"@.len());
        } else if i == 1 {
            assert(q[i].0.len() != "name"@.len());
        } else if i == 2 {
            assert(q[i].0.len() != "name"@.len());
        } else if i == 3 {
            assert(q[i].0.len() != "name"@.len());
        } else if i == 4 {
            assert(q[i].0.len() != "name"@.len());
        } else if i == 5 {
            assert(q[i].0.len() != "name"@.len());
        } else if i == 6 {
            assert(q[i].0.len() != "name"@.len());
        } else if i == 7 {
            assert(q[i].0.len() != "name"@.len());
        } else if i == 9 {
            assert(q[i].0.len() != "name"@.len());
        } else if i == 10 {
            assert(q[i].0[0] != "name"@[0]);
        } else if i == 11 {
            assert(q[i].0.len() != "name"@.len());
        }
    }
    lemma_sends_at(q, "name"@, device_name, 8);
    assert forall|i: int| 0 <= i < q.len() && i != 11 implies (#[trigger] q[i]).0 != "AID"@ by {
        if i == 0 {
            assert(q[i].0[0] != "AID"@[0]);
        } else if i == 1 {
            assert(q[i].0.len() != "AID"@.len());
        } else if i == 2 {
            assert(q[i].0[0] != "AID"@[0]);
        } else if i == 3 {
            assert(q[i].0[0] != "AID"@[0]);
        } else if i == 4 {
            assert(q[i].0.len() != "AID"@.len());
        } else if i == 5 {
            assert(q[i].0.len() != "AID"@.len());
        } else if i == 6 {
            assert(q[i].0[0] != "AID"@[0]);
        } else if i == 7 {
            assert(q[i].0.len() != "AID"@.len());
        } else if i == 8 {
            assert(q[i].0.len() != "AID"@.len());
        } else if i == 9 {
            assert(q[i].0.len() != "AID"@.len());
        } else if i == 10 {
            assert(q[i].0.len() != "AID"@.len());
        }
    }
    lemma_sends_at(q, "AID"@, decimal(aid as nat), 11);
    assert forall|i: int| 0 <= i < q.len() && i != 5 implies (#[trigger] q[i]).0 != "device"@ by {
        if i == 0 {
            assert(q[i].0.len() != "device"@.len());
        } else if i == 1 {
            assert(q[i].0.len() != "device"@.len());
        } else if i == 2 {
            assert(q[i].0.len() != "device"@.len());
        } else if i == 3 {
            assert(q[i].0.len() != "device"@.len());
        } else if i == 4 {
            assert(q[i].0.len() != "device"@.len());
        } else if i == 6 {
            assert(q[i].0.len() != "device"@.len());
        } else if i == 7 {
            assert(q[i].0.len() != "device"@.len());
        } else if i == 8 {
            assert(q[i].0.len() != "device"@.len());
        } else if i == 9 {
            assert(q[i].0.len() != "device"@.len());
        } else if i == 10 {
            assert(q[i].0.len() != "device"@.len());
        } else if i == 11 {
            assert(q[i].0.len() != "device"@.len());
        }
    }
    lemma_sends_at(q, "device"@, "REMOTE_CONTROL"@, 5);
}

/// A command request carries each of its arguments under its own name (the
/// ids, the request number and AID in decimal, device name and id, token),
/// and names the client a remote control.
pub proof fn lemma_command_query_fields(sid: Seq<char>, gsessionid: Seq<char>, rid: u32, aid: u32, device_name: Seq<char>, device_id: Seq<char>, token: Seq<char>)
    ensures
        ({
            let q = command_query(sid, gsessionid, rid, aid, device_name, device_id, token);
            sends(q, "SID"@, sid)
            && sends(q, "gsessionid"@, gsessionid)
            && sends(q, "RID"@, decimal(rid as nat))
            && sends(q, "AID"@, decimal(aid as nat))
            && sends(q, "name"@, device_name)
            && sends(q, "id"@, device_id)
            && sends(q, "device"@, "REMOTE_CONTROL"@)
            && sends(q, "loungeIdToken"@, token)
        }),
{
    reveal_strlit("AID");
    reveal_strlit("CI");
    reveal_strlit("RID");
    reveal_strlit("SID");
    reveal_strlit("TYPE");
    reveal_strlit("VER");
    reveal_strlit("device");
    reveal_strlit("gsessionid");
    reveal_strlit("id");
    reveal_strlit("loungeIdToken");
    reveal_strlit("name");
    reveal_strlit("t");
    reveal_strlit("v");
    let q = command_query(sid, gsessionid, rid, aid, device_name, device_id, token);
    assert forall|i: int| 0 <= i < q.len() && i != 0 implies (#[trigger] q[i]).0 != "SID"@ by {
        if i == 1 {
            assert(q[i].0.len() != "SID"@.len());
        } else if i == 2 {
            assert(q[i].0[0] != "SID"@[0]);
        } else if i == 3 {
            assert(q[i].0[0] != "SID"@[0]);
        } else if i == 4 {
            assert(q[i].0.len() != "SID"@.len());
        } else if i == 5 {
            assert(q[i].0.len() != "SID"@.len());
        } else if i == 6 {
            assert(q[i].0.len() != "SID"@.len());
        } else if i == 7 {
            assert(q[i].0[0] != "SID"@[0]);
        } else if i == 8 {
            assert(q[i].0.len() != "SID"@.len());
        } else if i == 9 {
            assert(q[i].0.len() != "SID"@.len());
        } else if i == 10 {
            assert(q[i].0.len() != "SID"@.len());
        } else if i == 11 {
            assert(q[i].0.len() != "SID"@.len());
        } else if i == 12 {
            assert(q[i].0.len() != "SID"@.len());
        }
    }
    lemma_sends_at(q, "SID"@, sid, 0);
    assert forall|i: int| 0 <= i < q.len() && i != 1 implies (#[trigger] q[i]).0 != "gsessionid"@ by {
        if i == 0 {
            assert(q[i].0.len() != "gsessionid"@.len());
        } else if i == 2 {
            assert(q[i].0.len() != "gsessionid"@.len());
        } else if i == 3 {
            assert(q[i].0.len() != "gsessionid"@.len());
        } else if i == 4 {
            assert(q[i].0.len() != "gsessionid"@.len());
        } else if i == 5 {
            assert(q[i].0.len() != "gsessionid"@.len());
        } else if i == 6 {
            assert(q[i].0.len() != "gsessionid"@.len());
        } else if i == 7 {
            assert(q[i].0.len() != "gsessionid"@.len());
        } else if i == 8 {
            assert(q[i].0.len() != "gsessionid"@.len());
        } else if i == 9 {
            assert(q[i].0.len() != "gsessionid"@.len());
        } else if i == 10 {
            assert(q[i].0.len() != "gsessionid"@.len());
        } else if i == 11 {
            assert(q[i].0.len() != "gsessionid"@.len());
        } else if i == 12 {
            assert(q[i].0.len() != "gsessionid"@.len());
        }
    }
    lemma_sends_at(q, "gsessionid"@, gsessionid, 1);
    assert forall|i: int| 0 <= i < q.len() && i != 2 implies (#[trigger] q[i]).0 != "RID"@ by {
        if i == 0 {
            assert(q[i].0[0] != "RID"@[0]);
        } else if i == 1 {
            assert(q[i].0.len() != "RID"@.len());
        } else if i == 3 {
            assert(q[i].0[0] != "RID"@[0]);
        } else if i == 4 {
            assert(q[i].0.len() != "RID"@.len());
        } else if i == 5 {
            assert(q[i].0.len() != "RID"@.len());
        } else if i == 6 {
            assert(q[i].0.len() != "RID"@.len());
        } else if i == 7 {
            assert(q[i].0[0] != "RID"@[0]);
        } else if i == 8 {
            assert(q[i].0.len() != "RID"@.len());
        } else if i == 9 {
            assert(q[i].0.len() != "RID"@.len());
        } else if i == 10 {
            assert(q[i].0.len() != "RID"@.len());
        } else if i == 11 {
            assert(q[i].0.len() != "RID"@.len());
        } else if i == 12 {
            assert(q[i].0.len() != "RID"@.len());
        }
    }
    lemma_sends_at(q, "RID"@, decimal(rid as nat), 2);
    assert forall|i: int| 0 <= i < q.len() && i != 7 implies (#[trigger] q[i]).0 != "AID"@ by {
        if i == 0 {
            assert(q[i].0[0] != "AID"@[0]);
        } else if i == 1 {
            assert(q[i].0.len() != "AID"@.len());
        } else if i == 2 {
            assert(q[i].0[0] != "AID"@[0]);
        } else if i == 3 {
            assert(q[i].0[0] != "AID"@[0]);
        } else if i == 4 {
            assert(q[i].0.len() != "AID"@.len());
        } else if i == 5 {
            assert(q[i].0.len() != "AID"@.len());
        } else if i == 6 {
            assert(q[i].0.len() != "AID"@.len());
        } else if i == 8 {
            assert(q[i].0.len() != "AID"@.len());
        } else if i == 9 {
            assert(q[i].0.len() != "AID"@.len());
        } else if i == 10 {
            assert(q[i].0.len() != "AID"@.len());
        } else if i == 11 {
            assert(q[i].0.len() != "AID"@.len());
        } else if i == 12 {
            assert(q[i].0.len() != "AID"@.len());
        }
    }
    lemma_sends_at(q, "AID"@, decimal(aid as nat), 7);
    assert forall|i: int| 0 <= i < q.len() && i != 9 implies (#[trigger] q[i]).0 != "name"@ by {
        if i == 0 {
            assert(q[i].0.len() != "name"@.len());
        } else if i == 1 {
            assert(q[i].0.len() != "name"@.len());
        } else if i == 2 {
            assert(q[i].0.len() != "name"@.len());
        } else if i == 3 {
            assert(q[i].0.len() != "name"@.len());
        } else if i == 4 {
            assert(q[i].0.len() != "name"@.len());
        } else if i == 5 {
            assert(q[i].0[0] != "name"@[0]);
        } else if i == 6 {
            assert(q[i].0.len() != "name"@.len());
        } else if i == 7 {
            assert(q[i].0.len() != "name"@.len());
        } else if i == 8 {
            assert(q[i].0.len() != "name"@.len());
        } else if i == 10 {
            assert(q[i].0.len() != "name"@.len());
        } else if i == 11 {
            assert(q[i].0.len() != "name"@.len());
        } else if i == 12 {
            assert(q[i].0.len() != "name"@.len());
        }
    }
    lemma_sends_at(q, "name"@, device_name, 9);
    assert forall|i: int| 0 <= i < q.len() && i != 10 implies (#[trigger] q[i]).0 != "id"@ by {
        if i == 0 {
            assert(q[i].0.len() != "id"@.len());
        } else if i == 1 {
            assert(q[i].0.len() != "id"@.len());
        } else if i == 2 {
            assert(q[i].0.len() != "id"@.len());
        } else if i == 3 {
            assert(q[i].0.len() != "id"@.len());
        } else if i == 4 {
            assert(q[i].0.len() != "id"@.len());
        } else if i == 5 {
            assert(q[i].0.len() != "id"@.len());
        } else if i == 6 {
            assert(q[i].0.len() != "id"@.len());
        } else if i == 7 {
            assert(q[i].0.len() != "id"@.len());
        } else if i == 8 {
            assert(q[i].0[0] != "id"@[0]);
        } else if i == 9 {
            assert(q[i].0.len() != "id"@.len());
        } else if i == 11 {
            assert(q[i].0.len() != "id"@.len());
        } else if i == 12 {
            assert(q[i].0.len() != "id"@.len());
        }
    }
    lemma_sends_at(q, "id"@, device_id, 10);
    assert forall|i: int| 0 <= i < q.len() && i != 11 implies (#[trigger] q[i]).0 != "device"@ by {
        if i == 0 {
            assert(q[i].0.len() != "device"@.len());
        } else if i == 1 {
            assert(q[i].0.len() != "device"@.len());
        } else if i == 2 {
            assert(q[i].0.len() != "device"@.len());
        } else if i == 3 {
            assert(q[i].0.len() != "device"@.len());
        } else if i == 4 {
            assert(q[i].0.len() != "device"@.len());
        } else if i == 5 {
            assert(q[i].0.len() != "device"@.len());
        } else if i == 6 {
            assert(q[i].0.len() != "device"@.len());
        } else if i == 7 {
            assert(q[i].0.len() != "device"@.len());
        } else if i == 8 {
            assert(q[i].0.len() != "device"@.len());
        } else if i == 9 {
            assert(q[i].0.len() != "device"@.len());
        } else if i == 10 {
            assert(q[i].0.len() != "device"@.len());
        } else if i == 12 {
            assert(q[i].0.len() != "device"@.len());
        }
    }
    lemma_sends_at(q, "device"@, "REMOTE_CONTROL"@, 11);
    assert forall|i: int| 0 <= i < q.len() && i != 12 implies (#[trigger] q[i]).0 != "loungeIdToken"@ by {
        if i == 0 {
            assert(q[i].0.len() != "loungeIdToken"@.len());
        } else if i == 1 {
            assert(q[i].0.len() != "loungeIdToken"@.len());
        } else if i == 2 {
            assert(q[i].0.len() != "loungeIdToken"@.len());
        } else if i == 3 {
            assert(q[i].0.len() != "loungeIdToken"@.len());
        } else if i == 4 {
            assert(q[i].0.len() != "loungeIdToken"@.len());
        } else if i == 5 {
            assert(q[i].0.len() != "loungeIdToken"@.len());
        } else if i == 6 {
            assert(q[i].0.len() != "loungeIdToken"@.len());
        } else if i == 7 {
            assert(q[i].0.len() != "loungeIdToken"@.len());
        } else if i == 8 {
            assert(q[i].0.len() != "loungeIdToken"@.len());
        } else if i == 9 {
            assert(q[i].0.len() != "loungeIdToken"@.len());
        } else if i == 10 {
            assert(q[i].0.len() != "loungeIdToken"@.len());
        } else if i == 11 {
            assert(q[i].0.len() != "loungeIdToken"@.len());
        }
    }
    lemma_sends_at(q, "loungeIdToken"@, token, 12);
}

/// The terminate request carries each of its arguments under its own name,
/// and names the client a remote control.
pub proof fn lemma_terminate_query_fields(rid: u32, gsessionid: Seq<char>, sid: Seq<char>, device_name: Seq<char>, device_id: Seq<char>, token: Seq<char>)
    ensures
        ({
            let q = terminate_query(rid, gsessionid, sid, device_name, device_id, token);
            sends(q, "RID"@, decimal(rid as nat))
            && sends(q, "gsessionid"@, gsessionid)
            && sends(q, "SID"@, sid)
            && sends(q, "name"@, device_name)
            && sends(q, "id"@, device_id)
            && sends(q, "device"@, "REMOTE_CONTROL"@)
            && sends(q, "loungeIdToken"@, token)
        }),
{
    reveal_strlit("CVER");
    reveal_strlit("RID");
    reveal_strlit("SID");
    reveal_strlit("VER");
    reveal_strlit("auth_failure_option");
    reveal_strlit("device");
    reveal_strlit("gsessionid");
    reveal_strlit("id");
    reveal_strlit("loungeIdToken");
    reveal_strlit("name");
    let q = terminate_query(rid, gsessionid, sid, device_name, device_id, token);
    assert forall|i: int| 0 <= i < q.len() && i != 0 implies (#[trigger] q[i]).0 != "RID"@ by {
        if i == 1 {
            assert(q[i].0[0] != "RID"@[0]);
        } else if i == 2 {
            assert(q[i].0.len() != "RID"@.len());
        } else if i == 3 {
            assert(q[i].0.len() != "RID"@.len());
        } else if i == 4 {
            assert(q[i].0[0] != "RID"@[0]);
        } else if i == 5 {
            assert(q[i].0.len() != "RID"@.len());
        } else if i == 6 {
            assert(q[i].0.len() != "RID"@.len());
        } else if i == 7 {
            assert(q[i].0.len() != "RID"@.len());
        } else if i == 8 {
            assert(q[i].0.len() != "RID"@.len());
        } else if i == 9 {
            assert(q[i].0.len() != "RID"@.len());
        }
    }
    lemma_sends_at(q, "RID"@, decimal(rid as nat), 0);
    assert forall|i: int| 0 <= i < q.len() && i != 3 implies (#[trigger] q[i]).0 != "gsessionid"@ by {
        if i == 0 {
            assert(q[i].0.len() != "gsessionid"@.len());
        } else if i == 1 {
            assert(q[i].0.len() != "gsessionid"@.len());
        } else if i == 2 {
            assert(q[i].0.len() != "gsessionid"@.len());
        } else if i == 4 {
            assert(q[i].0.len() != "gsessionid"@.len());
        } else if i == 5 {
            assert(q[i].0.len() != "gsessionid"@.len());
        } else if i == 6 {
            assert(q[i].0.len() != "gsessionid"@.len());
        } else if i == 7 {
            assert(q[i].0.len() != "gsessionid"@.len());
        } else if i == 8 {
            assert(q[i].0.len() != "gsessionid"@.len());
        } else if i == 9 {
            assert(q[i].0.len() != "gsessionid"@.len());
        }
    }
    lemma_sends_at(q, "gsessionid"@, gsessionid, 3);
    assert forall|i: int| 0 <= i < q.len() && i != 4 implies (#[trigger] q[i]).0 != "SID"@ by {
        if i == 0 {
            assert(q[i].0[0] != "SID"@[0]);
        } else if i == 1 {
            assert(q[i].0[0] != "SID"@[0]);
        } else if i == 2 {
            assert(q[i].0.len() != "SID"@.len());
        } else if i == 3 {
            assert(q[i].0.len() != "SID"@.len());
        } else if i == 5 {
            assert(q[i].0.len() != "SID"@.len());
        } else if i == 6 {
            assert(q[i].0.len() != "SID"@.len());
        } else if i == 7 {
            assert(q[i].0.len() != "SID"@.len());
        } else if i == 8 {
            assert(q[i].0.len() != "SID"@.len());
        } else if i == 9 {
            assert(q[i].0.len() != "SID"@.len());
        }
    }
    lemma_sends_at(q, "SID"@, sid, 4);
    assert forall|i: int| 0 <= i < q.len() && i != 6 implies (#[trigger] q[i]).0 != "name"@ by {
        if i == 0 {
            assert(q[i].0.len() != "name"@.len());
        } else if i == 1 {
            assert(q[i].0.len() != "name"@.len());
        } else if i == 2 {
            assert(q[i].0[0] != "name"@[0]);
        } else if i == 3 {
            assert(q[i].0.len() != "name"@.len());
        } else if i == 4 {
            assert(q[i].0.len() != "name"@.len());
        } else if i == 5 {
            assert(q[i].0.len() != "name"@.len());
        } else if i == 7 {
            assert(q[i].0.len() != "name"@.len());
        } else if i == 8 {
            assert(q[i].0.len() != "name"@.len());
        } else if i == 9 {
            assert(q[i].0.len() != "name"@.len());
        }
    }
    lemma_sends_at(q, "name"@, device_name, 6);
    assert forall|i: int| 0 <= i < q.len() && i != 7 implies (#[trigger] q[i]).0 != "id"@ by {
        if i == 0 {
            assert(q[i].0.len() != "id"@.len());
        } else if i == 1 {
            assert(q[i].0.len() != "id"@.len());
        } else if i == 2 {
            assert(q[i].0.len() != "id"@.len());
        } else if i == 3 {
            assert(q[i].0.len() != "id"@.len());
        } else if i == 4 {
            assert(q[i].0.len() != "id"@.len());
        } else if i == 5 {
            assert(q[i].0.len() != "id"@.len());
        } else if i == 6 {
            assert(q[i].0.len() != "id"@.len());
        } else if i == 8 {
            assert(q[i].0.len() != "id"@.len());
        } else if i == 9 {
            assert(q[i].0.len() != "id"@.len());
        }
    }
    lemma_sends_at(q, "id"@, device_id, 7);
    assert forall|i: int| 0 <= i < q.len() && i != 8 implies (#[trigger] q[i]).0 != "device"@ by {
        if i == 0 {
            assert(q[i].0.len() != "device"@.len());
        } else if i == 1 {
            assert(q[i].0.len() != "device"@.len());
        } else if i == 2 {
            assert(q[i].0.len() != "device"@.len());
        } else if i == 3 {
            assert(q[i].0.len() != "device"@.len());
        } else if i == 4 {
            assert(q[i].0.len() != "device"@.len());
        } else if i == 5 {
            assert(q[i].0.len() != "device"@.len());
        } else if i == 6 {
            assert(q[i].0.len() != "device"@.len());
        } else if i == 7 {
            assert(q[i].0.len() != "device"@.len());
        } else if i == 9 {
            assert(q[i].0.len() != "device"@.len());
        }
    }
    lemma_sends_at(q, "device"@, "REMOTE_CONTROL"@, 8);
    assert forall|i: int| 0 <= i < q.len() && i != 9 implies (#[trigger] q[i]).0 != "loungeIdToken"@ by {
        if i == 0 {
            assert(q[i].0.len() != "loungeIdToken"@.len());
        } else if i == 1 {
            assert(q[i].0.len() != "loungeIdToken"@.len());
        } else if i == 2 {
            assert(q[i].0.len() != "loungeIdToken"@.len());
        } else if i == 3 {
            assert(q[i].0.len() != "loungeIdToken"@.len());
        } else if i == 4 {
            assert(q[i].0.len() != "loungeIdToken"@.len());
        } else if i == 5 {
            assert(q[i].0.len() != "loungeIdToken"@.len());
        } else if i == 6 {
            assert(q[i].0.len() != "loungeIdToken"@.len());
        } else if i == 7 {
            assert(q[i].0.len() != "loungeIdToken"@.len());
        } else if i == 8 {
            assert(q[i].0.len() != "loungeIdToken"@.len());
        }
    }
    lemma_sends_at(q, "loungeIdToken"@, token, 9);
}

/// A bind by the manager is numbered with its request id in decimal and is
/// of type `bind`.
pub proof fn lemma_bind_query_fields(rid: u32)
    ensures
        ({
            let q = rebind_query(rid);
            sends(q, "RID"@, decimal(rid as nat))
            && sends(q, "TYPE"@, "bind"@)
        }),
{
    reveal_strlit("CVER");
    reveal_strlit("RID");
    reveal_strlit("TYPE");
    reveal_strlit("VER");
    reveal_strlit("auth_failure_option");
    let q = rebind_query(rid);
    assert forall|i: int| 0 <= i < q.len() && i != 0 implies (#[trigger] q[i]).0 != "RID"@ by {
        if i == 1 {
            assert(q[i].0[0] != "RID"@[0]);
        } else if i == 2 {
            assert(q[i].0.len() != "RID"@.len());
        } else if i == 3 {
            assert(q[i].0.len() != "RID"@.len());
        } else if i == 4 {
            assert(q[i].0.len() != "RID"@.len());
        }
    }
    lemma_sends_at(q, "RID"@, decimal(rid as nat), 0);
    assert forall|i: int| 0 <= i < q.len() && i != 4 implies (#[trigger] q[i]).0 != "TYPE"@ by {
        if i == 0 {
            assert(q[i].0.len() != "TYPE"@.len());
        } else if i == 1 {
            assert(q[i].0.len() != "TYPE"@.len());
        } else if i == 2 {
            assert(q[i].0[0] != "TYPE"@[0]);
        } else if i == 3 {
            assert(q[i].0.len() != "TYPE"@.len());
        }
    }
    lemma_sends_at(q, "TYPE"@, "bind"@, 4);
}

/// The first bind is number 1, of type `xmlhttp`.
pub proof fn lemma_initial_bind_query_fields()
    ensures
        ({
            let q = initial_bind_query();
            sends(q, "RID"@, "1"@)
            && sends(q, "TYPE"@, "xmlhttp"@)
        }),
{
    reveal_strlit("CVER");
    reveal_strlit("RID");
    reveal_strlit("TYPE");
    reveal_strlit("VER");
    reveal_strlit("auth_failure_option");
    let q = initial_bind_query();
    assert forall|i: int| 0 <= i < q.len() && i != 0 implies (#[trigger] q[i]).0 != "RID"@ by {
        if i == 1 {
            assert(q[i].0[0] != "RID"@[0]);
        } else if i == 2 {
            assert(q[i].0.len() != "RID"@.len());
        } else if i == 3 {
            assert(q[i].0.len() != "RID"@.len());
        } else if i == 4 {
            assert(q[i].0.len() != "RID"@.len());
        }
    }
    lemma_sends_at(q, "RID"@, "1"@, 0);
    assert forall|i: int| 0 <= i < q.len() && i != 4 implies (#[trigger] q[i]).0 != "TYPE"@ by {
        if i == 0 {
            assert(q[i].0.len() != "TYPE"@.len());
        } else if i == 1 {
            assert(q[i].0.len() != "TYPE"@.len());
        } else if i == 2 {
            assert(q[i].0[0] != "TYPE"@[0]);
        } else if i == 3 {
            assert(q[i].0.len() != "TYPE"@.len());
        }
    }
    lemma_sends_at(q, "TYPE"@, "xmlhttp"@, 4);
}

} // verus!
