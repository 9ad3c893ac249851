//! Parsing helpers for the values the Lounge API sends, and the extraction
//! of session identifiers from a bind response.

pub mod parsing;
pub mod state;
pub mod youtube_parse;

use vstd::prelude::*;
use vstd::utf8::{decode_utf8, valid_utf8};
use crate::error::LoungeError;

verus! {

/// The pattern whose first group is the session id (`SID`) of a bind response.
pub const SID_PATTERN: &'static str = "\\[\"c\",\"([^\"]*)\"";

/// The pattern whose first group is the `gsessionid` of a bind response.
pub const GSESSIONID_PATTERN: &'static str = "\\[\"S\",\"([^\"]*)\"";

/// The text of capture group 1 of the leftmost-first match of the regular
/// expression `pattern` in `text`; `None` where the pattern does not compile,
/// nothing matches, or the group took no part in the match.
pub uninterp spec fn regex_first_group(pattern: Seq<char>, text: Seq<char>) -> Option<Seq<char>>;

/// The text that `String::from_utf8_lossy` makes of `bytes`.
pub uninterp spec fn utf8_lossy(bytes: Seq<u8>) -> Seq<char>;

/// `regex::Regex::new(pattern)` then `Regex::captures(text)`, group 1.
///
/// Claims that the result is the capture named by `regex_first_group`;
/// how the regex engine finds that match is not stated here.
#[verifier::external_body]
fn regex_capture(pattern: &str, text: &str) -> (r: Option<String>)
    ensures
        match regex_first_group(pattern@, text@) {
            Some(g) => r matches Some(s) && s@ == g,
            None => r is None,
        },
{
    regex::Regex::new(pattern).ok()?.captures(text)?.get(1).map(|m| m.as_str().to_string())
}

/// `String::from_utf8_lossy`: the bytes decoded as UTF-8, invalid
/// sequences replaced by U+FFFD. Claims that the result is `utf8_lossy(bytes)`,
/// and, as the documentation says, that valid UTF-8 comes back unchanged.
#[verifier::external_body]
pub(crate) fn lossy_text(bytes: &[u8]) -> (r: String)
    ensures
        r@ == utf8_lossy(bytes@),
        valid_utf8(bytes@) ==> r@ == decode_utf8(bytes@),
{
    String::from_utf8_lossy(bytes).into_owned()
}

pub open spec fn failed_to_obtain_ids() -> Seq<char> {
    "Failed to obtain session IDs"@
}

/// Combines the two captured identifiers: both present, or an error.
pub fn session_ids_from_captures(sid: Option<String>, gsessionid: Option<String>) -> (r: Result<
    (Option<String>, Option<String>),
    LoungeError,
>)
    ensures
        match (sid, gsessionid) {
            (Some(s), Some(g)) => r matches Ok((Some(s2), Some(g2))) && s2@ == s@ && g2@ == g@,
            _ => r matches Err(LoungeError::InvalidResponse(m)) && m@ == failed_to_obtain_ids(),
        },
{
    match (sid, gsessionid) {
        (Some(s), Some(g)) => Ok((Some(s), Some(g))),
        _ => Err(LoungeError::InvalidResponse("Failed to obtain session IDs".to_string())),
    }
}

/// Finds the session id and the gsessionid in the body of a bind response.
///
/// Both are found, or the result is an `InvalidResponse` error.
pub fn extract_session_ids(body: &[u8]) -> (r: Result<(Option<String>, Option<String>), LoungeError>)
    ensures
        ({
            let text = utf8_lossy(body@);
            let sid = regex_first_group(SID_PATTERN@, text);
            let gsid = regex_first_group(GSESSIONID_PATTERN@, text);
            match (sid, gsid) {
                (Some(s), Some(g)) => r matches Ok((Some(s2), Some(g2))) && s2@ == s && g2@ == g,
                _ => r matches Err(LoungeError::InvalidResponse(m)) && m@ == failed_to_obtain_ids(),
            }
        }),
{
    let text = lossy_text(body);
    let sid = regex_capture(SID_PATTERN, text.as_str());
    let gsessionid = regex_capture(GSESSIONID_PATTERN, text.as_str());
    session_ids_from_captures(sid, gsessionid)
}

} // verus!
