//! `application/x-www-form-urlencoded` bodies: the forms sent when binding a
//! session.

use vstd::prelude::*;
use vstd::utf8::encode_utf8;
use crate::commands::{lemma_sends_at, pairs_view, push_pair, sends, Pair};
use crate::error::LoungeError;

verus! {

/// Bytes that the form encoding keeps as they are.
pub open spec fn form_byte_kept(b: u8) -> bool {
    b == 42 || b == 45 || b == 46 || (48 <= b <= 57) || (65 <= b <= 90) || b == 95 || (97 <= b
        <= 122)
}

/// The upper-case hexadecimal digit of `d < 16`.
pub open spec fn hex_upper(d: u8) -> char {
    if d < 10 {
        (d + 48) as char
    } else {
        (d + 55) as char
    }
}

/// The encoding of one byte: kept, `+` for a space, or `%XX`.
pub open spec fn form_encode_byte(b: u8) -> Seq<char> {
    if form_byte_kept(b) {
        seq![b as char]
    } else if b == 32 {
        seq!['+']
    } else {
        seq!['%', hex_upper(b / 16), hex_upper(b % 16)]
    }
}

pub open spec fn form_encode_bytes(bs: Seq<u8>) -> Seq<char>
    decreases bs.len(),
{
    if bs.len() == 0 {
        Seq::empty()
    } else {
        form_encode_byte(bs[0]) + form_encode_bytes(bs.drop_first())
    }
}

/// The form encoding of a string: of its UTF-8 bytes.
pub open spec fn form_encode(s: Seq<char>) -> Seq<char> {
    form_encode_bytes(encode_utf8(s))
}

pub open spec fn form_pair(p: Pair) -> Seq<char> {
    form_encode(p.0) + seq!['='] + form_encode(p.1)
}

/// The encoded pairs, `name=value`, joined by `&`.
pub open spec fn form_urlencoded(pairs: Seq<Pair>) -> Seq<char>
    decreases pairs.len(),
{
    if pairs.len() == 0 {
        Seq::empty()
    } else if pairs.len() == 1 {
        form_pair(pairs[0])
    } else {
        form_urlencoded(pairs.drop_last()) + seq!['&'] + form_pair(pairs.last())
    }
}

/// The error of `serde_urlencoded`'s serializer.
#[verifier::external_type_specification]
#[verifier::external_body]
pub struct ExUrlEncodeError(serde_urlencoded::ser::Error);

/// `serde_urlencoded::to_string` on a list of string pairs.
///
/// Claims what the crate's serializer does for string pairs: it succeeds, and
/// writes each pair as `name=value` with both parts form-encoded byte by byte,
/// the pairs joined by `&`.
#[verifier::external_body]
fn urlencode_pairs(pairs: &Vec<(String, String)>) -> (r: Result<String, serde_urlencoded::ser::Error>)
    ensures
        r is Ok,
        r is Ok ==> r->Ok_0@ == form_urlencoded(pairs_view(pairs@)),
{
    serde_urlencoded::to_string(pairs)
}

/// Encodes a form. String pairs always encode, so no `UrlEncodingFailed`
/// error comes of it.
pub fn encode_form(pairs: &Vec<(String, String)>) -> (r: Result<String, LoungeError>)
    ensures
        r matches Ok(s) && s@ == form_urlencoded(pairs_view(pairs@)),
{
    let encoded = urlencode_pairs(pairs);
    Ok(encoded.unwrap())
}

/// The fields of the first bind of a session.
pub open spec fn connect_fields(device_name: Seq<char>, device_id: Seq<char>, token: Seq<char>) -> Seq<Pair> {
    seq![
        ("app"@, "youtube-desktop"@),
        ("mdx-version"@, "3"@),
        ("name"@, device_name),
        ("id"@, device_id),
        ("device"@, "REMOTE_CONTROL"@),
        ("capabilities"@, "que,dsdtr,atp"@),
        ("magnaKey"@, "cloudPairedDevice"@),
        ("ui"@, "false"@),
        ("theme"@, "cl"@),
        ("loungeIdToken"@, token),
    ]
}

/// The fields of a later bind, made by the connection manager.
pub open spec fn rebind_fields(device_name: Seq<char>, device_id: Seq<char>, token: Seq<char>) -> Seq<Pair> {
    seq![
        ("app"@, "web"@),
        ("mdx-version"@, "3"@),
        ("name"@, device_name),
        ("id"@, device_id),
        ("device"@, "REMOTE_CONTROL"@),
        ("capabilities"@, "que,dsdtr,atp"@),
        ("method"@, "setPlaylist"@),
        ("magnaKey"@, "cloudPairedDevice"@),
        ("ui"@, "false"@),
        ("deviceContext"@, "user_agent=dunno"@),
        ("window_width_points"@, ""@),
        ("window_height_points"@, ""@),
        ("os_name"@, "android"@),
        ("ms"@, ""@),
        ("theme"@, "cl"@),
        ("loungeIdToken"@, token),
    ]
}

/// The body of the first bind request.
pub fn build_connect_form_data(device_name: &str, device_id: &str, token: &str) -> (r: Result<String, LoungeError>)
    ensures
        r matches Ok(s) && s@ == form_urlencoded(connect_fields(device_name@, device_id@, token@)),
{
    let mut v: Vec<(String, String)> = Vec::new();
    push_pair(&mut v, "app", "youtube-desktop".to_string());
    push_pair(&mut v, "mdx-version", "3".to_string());
    push_pair(&mut v, "name", device_name.to_string());
    push_pair(&mut v, "id", device_id.to_string());
    push_pair(&mut v, "device", "REMOTE_CONTROL".to_string());
    push_pair(&mut v, "capabilities", "que,dsdtr,atp".to_string());
    push_pair(&mut v, "magnaKey", "cloudPairedDevice".to_string());
    push_pair(&mut v, "ui", "false".to_string());
    push_pair(&mut v, "theme", "cl".to_string());
    push_pair(&mut v, "loungeIdToken", token.to_string());
    assert(pairs_view(v@) =~= connect_fields(device_name@, device_id@, token@));
    encode_form(&v)
}

/// The body of a bind request made by the connection manager.
pub fn build_rebind_form_data(device_name: &str, device_id: &str, token: &str) -> (r: Result<String, LoungeError>)
    ensures
        r matches Ok(s) && s@ == form_urlencoded(rebind_fields(device_name@, device_id@, token@)),
{
    let mut v: Vec<(String, String)> = Vec::new();
    push_pair(&mut v, "app", "web".to_string());
    push_pair(&mut v, "mdx-version", "3".to_string());
    push_pair(&mut v, "name", device_name.to_string());
    push_pair(&mut v, "id", device_id.to_string());
    push_pair(&mut v, "device", "REMOTE_CONTROL".to_string());
    push_pair(&mut v, "capabilities", "que,dsdtr,atp".to_string());
    push_pair(&mut v, "method", "setPlaylist".to_string());
    push_pair(&mut v, "magnaKey", "cloudPairedDevice".to_string());
    push_pair(&mut v, "ui", "false".to_string());
    push_pair(&mut v, "deviceContext", "user_agent=dunno".to_string());
    push_pair(&mut v, "window_width_points", "".to_string());
    push_pair(&mut v, "window_height_points", "".to_string());
    push_pair(&mut v, "os_name", "android".to_string());
    push_pair(&mut v, "ms", "".to_string());
    push_pair(&mut v, "theme", "cl".to_string());
    push_pair(&mut v, "loungeIdToken", token.to_string());
    assert(pairs_view(v@) =~= rebind_fields(device_name@, device_id@, token@));
    encode_form(&v)
}


// ---------------------------------------------------------------- laws

/// The first bind's form names the client a remote control of the desktop
/// app, and carries the device name, device id and token under their own names.
pub proof fn lemma_connect_fields(device_name: Seq<char>, device_id: Seq<char>, token: Seq<char>)
    ensures
        ({
            let q = connect_fields(device_name, device_id, token);
            sends(q, "app"@, "youtube-desktop"@)
            && sends(q, "name"@, device_name)
            && sends(q, "id"@, device_id)
            && sends(q, "device"@, "REMOTE_CONTROL"@)
            && sends(q, "capabilities"@, "que,dsdtr,atp"@)
            && sends(q, "loungeIdToken"@, token)
        }),
{
    reveal_strlit("app");
    reveal_strlit("capabilities");
    reveal_strlit("device");
    reveal_strlit("id");
    reveal_strlit("loungeIdToken");
    reveal_strlit("magnaKey");
    reveal_strlit("mdx-version");
    reveal_strlit("name");
    reveal_strlit("theme");
    reveal_strlit("ui");
    let q = connect_fields(device_name, device_id, token);
    assert forall|i: int| 0 <= i < q.len() && i != 0 implies (#[trigger] q[i]).0 != "app"@ by {
        if i == 1 {
            assert(q[i].0.len() != "app"@.len());
        } else if i == 2 {
            assert(q[i].0.len() != "app"@.len());
        } else if i == 3 {
            assert(q[i].0.len() != "app"@.len());
        } else if i == 4 {
            assert(q[i].0.len() != "app"@.len());
        } else if i == 5 {
            assert(q[i].0.len() != "app"@.len());
        } else if i == 6 {
            assert(q[i].0.len() != "app"@.len());
        } else if i == 7 {
            assert(q[i].0.len() != "app"@.len());
        } else if i == 8 {
            assert(q[i].0.len() != "app"@.len());
        } else if i == 9 {
            assert(q[i].0.len() != "app"@.len());
        }
    }
    lemma_sends_at(q, "app"@, "youtube-desktop"@, 0);
    assert forall|i: int| 0 <= i < q.len() && i != 2 implies (#[trigger] q[i]).0 != "name"@ by {
        if i == 0 {
            assert(q[i].0.len() != "name"@.len());
        } else if i == 1 {
            assert(q[i].0.len() != "name"@.len());
        } else if i == 3 {
            assert(q[i].0.len() != "name"@.len());
        } else if i == 4 {
            assert(q[i].0.len() != "name"@.len());
        } else if i == 5 {
            assert(q[i].0.len() != "name"@.len());
        } else if i == 6 {
            assert(q[i].0.len() != "name"@.len());
        } else if i == 7 {
            assert(q[i].0.len() != "name"@.len());
        } else if i == 8 {
            assert(q[i].0.len() != "name"@.len());
        } else if i == 9 {
            assert(q[i].0.len() != "name"@.len());
        }
    }
    lemma_sends_at(q, "name"@, device_name, 2);
    assert forall|i: int| 0 <= i < q.len() && i != 3 implies (#[trigger] q[i]).0 != "id"@ by {
        if i == 0 {
            assert(q[i].0.len() != "id"@.len());
        } else if i == 1 {
            assert(q[i].0.len() != "id"@.len());
        } else if i == 2 {
            assert(q[i].0.len() != "id"@.len());
        } else if i == 4 {
            assert(q[i].0.len() != "id"@.len());
        } else if i == 5 {
            assert(q[i].0.len() != "id"@.len());
        } else if i == 6 {
            assert(q[i].0.len() != "id"@.len());
        } else if i == 7 {
            assert(q[i].0[0] != "id"@[0]);
        } else if i == 8 {
            assert(q[i].0.len() != "id"@.len());
        } else if i == 9 {
            assert(q[i].0.len() != "id"@.len());
        }
    }
    lemma_sends_at(q, "id"@, device_id, 3);
    assert forall|i: int| 0 <= i < q.len() && i != 4 implies (#[trigger] q[i]).0 != "device"@ by {
        if i == 0 {
            assert(q[i].0.len() != "device"@.len());
        } else if i == 1 {
            assert(q[i].0.len() != "device"@.len());
        } else if i == 2 {
            assert(q[i].0.len() != "device"@.len());
        } else if i == 3 {
            assert(q[i].0.len() != "device"@.len());
        } else if i == 5 {
            assert(q[i].0.len() != "device"@.len());
        } else if i == 6 {
            assert(q[i].0.len() != "device"@.len());
        } else if i == 7 {
            assert(q[i].0.len() != "device"@.len());
        } else if i == 8 {
            assert(q[i].0.len() != "device"@.len());
        } else if i == 9 {
            assert(q[i].0.len() != "device"@.len());
        }
    }
    lemma_sends_at(q, "device"@, "REMOTE_CONTROL"@, 4);
    assert forall|i: int| 0 <= i < q.len() && i != 5 implies (#[trigger] q[i]).0 != "capabilities"@ by {
        if i == 0 {
            assert(q[i].0.len() != "capabilities"@.len());
        } else if i == 1 {
            assert(q[i].0.len() != "capabilities"@.len());
        } else if i == 2 {
            assert(q[i].0.len() != "capabilities"@.len());
        } else if i == 3 {
            assert(q[i].0.len() != "capabilities"@.len());
        } else if i == 4 {
            assert(q[i].0.len() != "capabilities"@.len());
        } else if i == 6 {
            assert(q[i].0.len() != "capabilities"@.len());
        } else if i == 7 {
            assert(q[i].0.len() != "capabilities"@.len());
        } else if i == 8 {
            assert(q[i].0.len() != "capabilities"@.len());
        } else if i == 9 {
            assert(q[i].0.len() != "capabilities"@.len());
        }
    }
    lemma_sends_at(q, "capabilities"@, "que,dsdtr,atp"@, 5);
    assert forall|i: int| 0 <= i < q.len() && i != 9 implies (#[trigger] q[i]).0 != "loungeIdToken"@ by {
        if i == 0 {
            assert(q[i].0.len() != "loungeIdToken"@.len());
        } else if i == 1 {
            assert(q[i].0.len() != "loungeIdToken"@.len());
        } else if i == 2 {
            assert(q[i].0.len() != "loungeIdToken"@.len());
        } else if i == 3 {
            assert(q[i].0.len() != "loungeIdToken"@.len());
        } else if i == 4 {
            assert(q[i].0.len() != "loungeIdToken"@.len());
        } else if i == 5 {
            assert(q[i].0.len() != "loungeIdToken"@.len());
        } else if i == 6 {
            assert(q[i].0.len() != "loungeIdToken"@.len());
        } else if i == 7 {
            assert(q[i].0.len() != "loungeIdToken"@.len());
        } else if i == 8 {
            assert(q[i].0.len() != "loungeIdToken"@.len());
        }
    }
    lemma_sends_at(q, "loungeIdToken"@, token, 9);
}

/// A later bind's form names the client a remote control (as the first bind
/// does) of the web app asking for `setPlaylist`, and carries the device
/// name, device id and token under their own names.
pub proof fn lemma_rebind_fields(device_name: Seq<char>, device_id: Seq<char>, token: Seq<char>)
    ensures
        ({
            let q = rebind_fields(device_name, device_id, token);
            sends(q, "app"@, "web"@)
            && sends(q, "name"@, device_name)
            && sends(q, "id"@, device_id)
            && sends(q, "device"@, "REMOTE_CONTROL"@)
            && sends(q, "capabilities"@, "que,dsdtr,atp"@)
            && sends(q, "method"@, "setPlaylist"@)
            && sends(q, "loungeIdToken"@, token)
        }),
{
    reveal_strlit("app");
    reveal_strlit("capabilities");
    reveal_strlit("device");
    reveal_strlit("deviceContext");
    reveal_strlit("id");
    reveal_strlit("loungeIdToken");
    reveal_strlit("magnaKey");
    reveal_strlit("mdx-version");
    reveal_strlit("method");
    reveal_strlit("ms");
    reveal_strlit("name");
    reveal_strlit("os_name");
    reveal_strlit("theme");
    reveal_strlit("ui");
    reveal_strlit("window_height_points");
    reveal_strlit("window_width_points");
    let q = rebind_fields(device_name, device_id, token);
    assert forall|i: int| 0 <= i < q.len() && i != 0 implies (#[trigger] q[i]).0 != "app"@ by {
        if i == 1 {
            assert(q[i].0.len() != "app"@.len());
        } else if i == 2 {
            assert(q[i].0.len() != "app"@.len());
        } else if i == 3 {
            assert(q[i].0.len() != "app"@.len());
        } else if i == 4 {
            assert(q[i].0.len() != "app"@.len());
        } else if i == 5 {
            assert(q[i].0.len() != "app"@.len());
        } else if i == 6 {
            assert(q[i].0.len() != "app"@.len());
        } else if i == 7 {
            assert(q[i].0.len() != "app"@.len());
        } else if i == 8 {
            assert(q[i].0.len() != "app"@.len());
        } else if i == 9 {
            assert(q[i].0.len() != "app"@.len());
        } else if i == 10 {
            assert(q[i].0.len() != "app"@.len());
        } else if i == 11 {
            assert(q[i].0.len() != "app"@.len());
        } else if i == 12 {
            assert(q[i].0.len() != "app"@.len());
        } else if i == 13 {
            assert(q[i].0.len() != "app"@.len());
        } else if i == 14 {
            assert(q[i].0.len() != "app"@.len());
        } else if i == 15 {
            assert(q[i].0.len() != "app"@.len());
        }
    }
    lemma_sends_at(q, "app"@, "web"@, 0);
    assert forall|i: int| 0 <= i < q.len() && i != 2 implies (#[trigger] q[i]).0 != "name"@ by {
        if i == 0 {
            assert(q[i].0.len() != "name"@.len());
        } else if i == 1 {
            assert(q[i].0.len() != "name"@.len());
        } else if i == 3 {
            assert(q[i].0.len() != "name"@.len());
        } else if i == 4 {
            assert(q[i].0.len() != "name"@.len());
        } else if i == 5 {
            assert(q[i].0.len() != "name"@.len());
        } else if i == 6 {
            assert(q[i].0.len() != "name"@.len());
        } else if i == 7 {
            assert(q[i].0.len() != "name"@.len());
        } else if i == 8 {
            assert(q[i].0.len() != "name"@.len());
        } else if i == 9 {
            assert(q[i].0.len() != "name"@.len());
        } else if i == 10 {
            assert(q[i].0.len() != "name"@.len());
        } else if i == 11 {
            assert(q[i].0.len() != "name"@.len());
        } else if i == 12 {
            assert(q[i].0.len() != "name"@.len());
        } else if i == 13 {
            assert(q[i].0.len() != "name"@.len());
        } else if i == 14 {
            assert(q[i].0.len() != "name"@.len());
        } else if i == 15 {
            assert(q[i].0.len() != "name"@.len());
        }
    }
    lemma_sends_at(q, "name"@, device_name, 2);
    assert forall|i: int| 0 <= i < q.len() && i != 3 implies (#[trigger] q[i]).0 != "id"@ by {
        if i == 0 {
            assert(q[i].0.len() != "id"@.len());
        } else if i == 1 {
            assert(q[i].0.len() != "id"@.len());
        } else if i == 2 {
            assert(q[i].0.len() != "id"@.len());
        } else if i == 4 {
            assert(q[i].0.len() != "id"@.len());
        } else if i == 5 {
            assert(q[i].0.len() != "id"@.len());
        } else if i == 6 {
            assert(q[i].0.len() != "id"@.len());
        } else if i == 7 {
            assert(q[i].0.len() != "id"@.len());
        } else if i == 8 {
            assert(q[i].0[0] != "id"@[0]);
        } else if i == 9 {
            assert(q[i].0.len() != "id"@.len());
        } else if i == 10 {
            assert(q[i].0.len() != "id"@.len());
        } else if i == 11 {
            assert(q[i].0.len() != "id"@.len());
        } else if i == 12 {
            assert(q[i].0.len() != "id"@.len());
        } else if i == 13 {
            assert(q[i].0[0] != "id"@[0]);
        } else if i == 14 {
            assert(q[i].0.len() != "id"@.len());
        } else if i == 15 {
            assert(q[i].0.len() != "id"@.len());
        }
    }
    lemma_sends_at(q, "id"@, device_id, 3);
    assert forall|i: int| 0 <= i < q.len() && i != 4 implies (#[trigger] q[i]).0 != "device"@ by {
        if i == 0 {
            assert(q[i].0.len() != "device"@.len());
        } else if i == 1 {
            assert(q[i].0.len() != "device"@.len());
        } else if i == 2 {
            assert(q[i].0.len() != "device"@.len());
        } else if i == 3 {
            assert(q[i].0.len() != "device"@.len());
        } else if i == 5 {
            assert(q[i].0.len() != "device"@.len());
        } else if i == 6 {
            assert(q[i].0[0] != "device"@[0]);
        } else if i == 7 {
            assert(q[i].0.len() != "device"@.len());
        } else if i == 8 {
            assert(q[i].0.len() != "device"@.len());
        } else if i == 9 {
            assert(q[i].0.len() != "device"@.len());
        } else if i == 10 {
            assert(q[i].0.len() != "device"@.len());
        } else if i == 11 {
            assert(q[i].0.len() != "device"@.len());
        } else if i == 12 {
            assert(q[i].0.len() != "device"@.len());
        } else if i == 13 {
            assert(q[i].0.len() != "device"@.len());
        } else if i == 14 {
            assert(q[i].0.len() != "device"@.len());
        } else if i == 15 {
            assert(q[i].0.len() != "device"@.len());
        }
    }
    lemma_sends_at(q, "device"@, "REMOTE_CONTROL"@, 4);
    assert forall|i: int| 0 <= i < q.len() && i != 5 implies (#[trigger] q[i]).0 != "capabilities"@ by {
        if i == 0 {
            assert(q[i].0.len() != "capabilities"@.len());
        } else if i == 1 {
            assert(q[i].0.len() != "capabilities"@.len());
        } else if i == 2 {
            assert(q[i].0.len() != "capabilities"@.len());
        } else if i == 3 {
            assert(q[i].0.len() != "capabilities"@.len());
        } else if i == 4 {
            assert(q[i].0.len() != "capabilities"@.len());
        } else if i == 6 {
            assert(q[i].0.len() != "capabilities"@.len());
        } else if i == 7 {
            assert(q[i].0.len() != "capabilities"@.len());
        } else if i == 8 {
            assert(q[i].0.len() != "capabilities"@.len());
        } else if i == 9 {
            assert(q[i].0.len() != "capabilities"@.len());
        } else if i == 10 {
            assert(q[i].0.len() != "capabilities"@.len());
        } else if i == 11 {
            assert(q[i].0.len() != "capabilities"@.len());
        } else if i == 12 {
            assert(q[i].0.len() != "capabilities"@.len());
        } else if i == 13 {
            assert(q[i].0.len() != "capabilities"@.len());
        } else if i == 14 {
            assert(q[i].0.len() != "capabilities"@.len());
        } else if i == 15 {
            assert(q[i].0.len() != "capabilities"@.len());
        }
    }
    lemma_sends_at(q, "capabilities"@, "que,dsdtr,atp"@, 5);
    assert forall|i: int| 0 <= i < q.len() && i != 6 implies (#[trigger] q[i]).0 != "method"@ by {
        if i == 0 {
            assert(q[i].0.len() != "method"@.len());
        } else if i == 1 {
            assert(q[i].0.len() != "method"@.len());
        } else if i == 2 {
            assert(q[i].0.len() != "method"@.len());
        } else if i == 3 {
            assert(q[i].0.len() != "method"@.len());
        } else if i == 4 {
            assert(q[i].0[0] != "method"@[0]);
        } else if i == 5 {
            assert(q[i].0.len() != "method"@.len());
        } else if i == 7 {
            assert(q[i].0.len() != "method"@.len());
        } else if i == 8 {
            assert(q[i].0.len() != "method"@.len());
        } else if i == 9 {
            assert(q[i].0.len() != "method"@.len());
        } else if i == 10 {
            assert(q[i].0.len() != "method"@.len());
        } else if i == 11 {
            assert(q[i].0.len() != "method"@.len());
        } else if i == 12 {
            assert(q[i].0.len() != "method"@.len());
        } else if i == 13 {
            assert(q[i].0.len() != "method"@.len());
        } else if i == 14 {
            assert(q[i].0.len() != "method"@.len());
        } else if i == 15 {
            assert(q[i].0.len() != "method"@.len());
        }
    }
    lemma_sends_at(q, "method"@, "setPlaylist"@, 6);
    assert forall|i: int| 0 <= i < q.len() && i != 15 implies (#[trigger] q[i]).0 != "loungeIdToken"@ by {
        if i == 0 {
            assert(q[i].0.len() != "loungeIdToken"@.len());
        } else if i == 1 {
            assert(q[i].0.len() != "loungeIdToken"@.len());
        } else if i == 2 {
            assert(q[i].0.len() != "loungeIdToken"@.len());
        } else if i == 3 {
            assert(q[i].0.len() != "loungeIdToken"@.len());
        } else if i == 4 {
            assert(q[i].0.len() != "loungeIdToken"@.len());
        } else if i == 5 {
            assert(q[i].0.len() != "loungeIdToken"@.len());
        } else if i == 6 {
            assert(q[i].0.len() != "loungeIdToken"@.len());
        } else if i == 7 {
            assert(q[i].0.len() != "loungeIdToken"@.len());
        } else if i == 8 {
            assert(q[i].0.len() != "loungeIdToken"@.len());
        } else if i == 9 {
            assert(q[i].0[0] != "loungeIdToken"@[0]);
        } else if i == 10 {
            assert(q[i].0.len() != "loungeIdToken"@.len());
        } else if i == 11 {
            assert(q[i].0.len() != "loungeIdToken"@.len());
        } else if i == 12 {
            assert(q[i].0.len() != "loungeIdToken"@.len());
        } else if i == 13 {
            assert(q[i].0.len() != "loungeIdToken"@.len());
        } else if i == 14 {
            assert(q[i].0.len() != "loungeIdToken"@.len());
        }
    }
    lemma_sends_at(q, "loungeIdToken"@, token, 15);
}

} // verus!
