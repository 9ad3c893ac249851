//! Framing of the event stream: each message is `<length>\n<content>`, the
//! length being the decimal byte count of the content.

use vstd::prelude::*;
use vstd::utf8::{decode_utf8, encode_utf8, valid_utf8};
use crate::text::{
    all_digits, chars_of, decimal, digits_up_to, drop_plus, is_digit, is_ws, parse_usize,
    parse_usize_spec, trim, trim_end, trim_start, trim_str,
};

verus! {

/// Where the decoder stands: reading a length line, or waiting for content.
#[derive(Debug, Clone, Copy)]
enum LoungeCodecState {
    ReadingSize,
    ReadingContent { expected_size: usize },
}

/// Decoder for the length-prefixed event stream.
#[derive(Debug)]
pub struct LoungeCodec {
    state: LoungeCodecState,
}

/// Why a frame could not be decoded.
#[derive(Debug)]
pub enum CodecError {
    InvalidUtf8Header,
    NonNumericSize(String),
    InvalidSize(String),
    InvalidUtf8Content,
}

/// The mathematical content of a `CodecError`.
pub enum CodecFault {
    InvalidUtf8Header,
    NonNumericSize(Seq<char>),
    InvalidSize(Seq<char>),
    InvalidUtf8Content,
}

impl View for CodecError {
    type V = CodecFault;

    open spec fn view(&self) -> CodecFault {
        match self {
            CodecError::InvalidUtf8Header => CodecFault::InvalidUtf8Header,
            CodecError::NonNumericSize(s) => CodecFault::NonNumericSize(s@),
            CodecError::InvalidSize(s) => CodecFault::InvalidSize(s@),
            CodecError::InvalidUtf8Content => CodecFault::InvalidUtf8Content,
        }
    }
}

impl View for LoungeCodec {
    /// `None` while reading a length line, `Some(n)` while waiting for `n` bytes of content.
    type V = Option<usize>;

    closed spec fn view(&self) -> Option<usize> {
        match self.state {
            LoungeCodecState::ReadingSize => None,
            LoungeCodecState::ReadingContent { expected_size } => Some(expected_size),
        }
    }
}

/// The text of a codec error (the message of the I/O error it becomes).
pub open spec fn codec_error_text(e: CodecFault) -> Seq<char> {
    match e {
        CodecFault::InvalidUtf8Header => "Invalid UTF-8 in size header"@,
        CodecFault::NonNumericSize(s) => "Expected numeric size, got: "@ + s,
        CodecFault::InvalidSize(s) => "Invalid size: "@ + s,
        CodecFault::InvalidUtf8Content => "Invalid UTF-8 in message content"@,
    }
}

impl CodecError {
    pub fn message(&self) -> (r: String)
        ensures
            r@ == codec_error_text(self@),
    {
        match self {
            CodecError::InvalidUtf8Header => "Invalid UTF-8 in size header".to_string(),
            CodecError::NonNumericSize(s) => {
                let mut r = "Expected numeric size, got: ".to_string();
                r.append(s.as_str());
                r
            },
            CodecError::InvalidSize(s) => {
                let mut r = "Invalid size: ".to_string();
                r.append(s.as_str());
                r
            },
            CodecError::InvalidUtf8Content => "Invalid UTF-8 in message content".to_string(),
        }
    }
}

// ---------------------------------------------------------------- specs

/// The position of the first newline in `buf`, if any.
pub open spec fn first_newline(buf: Seq<u8>) -> Option<int>
    decreases buf.len(),
{
    if buf.len() == 0 {
        None
    } else if buf[0] == 10u8 {
        Some(0)
    } else {
        match first_newline(buf.drop_first()) {
            Some(i) => Some(i + 1),
            None => None,
        }
    }
}

/// `first_newline` finds the first newline, or says there is none.
pub proof fn lemma_first_newline(buf: Seq<u8>)
    ensures
        match first_newline(buf) {
            Some(p) => 0 <= p < buf.len() && buf[p] == 10u8 && forall|j: int|
                0 <= j < p ==> buf[j] != 10u8,
            None => forall|j: int| 0 <= j < buf.len() ==> buf[j] != 10u8,
        },
    decreases buf.len(),
{
    if buf.len() > 0 && buf[0] != 10u8 {
        lemma_first_newline(buf.drop_first());
        assert forall|j: int| 1 <= j < buf.len() implies buf[j] == buf.drop_first()[j - 1] by {}
        if let Some(p) = first_newline(buf.drop_first()) {
            assert forall|j: int| 0 <= j < p + 1 implies buf[j] != 10u8 by {
                if j > 0 {
                    assert(buf[j] == buf.drop_first()[j - 1]);
                }
            }
        } else {
            assert forall|j: int| 0 <= j < buf.len() implies buf[j] != 10u8 by {
                if j > 0 {
                    assert(buf[j] == buf.drop_first()[j - 1]);
                }
            }
        }
    }
}

/// The length that a length line (without its newline) announces.
pub open spec fn header_value(line: Seq<u8>) -> Result<usize, CodecFault> {
    if !valid_utf8(line) {
        Err(CodecFault::InvalidUtf8Header)
    } else {
        let t = trim(decode_utf8(line));
        if !all_digits(t) {
            Err(CodecFault::NonNumericSize(t))
        } else {
            match parse_usize_spec(t) {
                Some(n) => Ok(n),
                None => Err(CodecFault::InvalidSize(t)),
            }
        }
    }
}

/// One decoding step: the new state, what is left of the buffer, and the outcome.
pub type DecodeStep = (Option<usize>, Seq<u8>, Result<Option<Seq<char>>, CodecFault>);

/// Taking the content of a frame whose length `n` is known.
pub open spec fn content_step(n: usize, buf: Seq<u8>) -> DecodeStep {
    if buf.len() >= n {
        let content = buf.subrange(0, n as int);
        let rest = buf.subrange(n as int, buf.len() as int);
        if valid_utf8(content) {
            (None, rest, Ok(Some(decode_utf8(content))))
        } else {
            (Some(n), rest, Err(CodecFault::InvalidUtf8Content))
        }
    } else {
        (Some(n), buf, Ok(None))
    }
}

/// What one call of `decode` does, from the state `st` and the buffer `buf`.
pub open spec fn decode_spec(st: Option<usize>, buf: Seq<u8>) -> DecodeStep {
    match st {
        None => match first_newline(buf) {
            None => (None, buf, Ok(None)),
            Some(p) => {
                let line = buf.subrange(0, p);
                let rest = buf.subrange(p + 1, buf.len() as int);
                match header_value(line) {
                    Err(e) => (None, rest, Err(e)),
                    Ok(n) => content_step(n, rest),
                }
            },
        },
        Some(n) => content_step(n, buf),
    }
}

/// The bytes of an ASCII string.
pub open spec fn ascii_bytes(s: Seq<char>) -> Seq<u8> {
    s.map_values(|c: char| c as u8)
}

/// A frame: the decimal length of `content`, a newline, then `content`.
pub open spec fn frame(content: Seq<u8>) -> Seq<u8> {
    ascii_bytes(decimal(content.len())) + seq![10u8] + content
}

pub open spec fn result_view(r: Result<Option<String>, CodecError>) -> Result<Option<Seq<char>>, CodecFault> {
    match r {
        Ok(Some(s)) => Ok(Some(s@)),
        Ok(None) => Ok(None),
        Err(e) => Err(e@),
    }
}

// ---------------------------------------------------------------- trusted

/// `std::str::from_utf8`: the text of `bytes` when they are valid UTF-8.
///
/// Claims, as its documentation says, success exactly on valid UTF-8, with
/// the decoded characters.
#[verifier::external_body]
fn utf8_text(bytes: &[u8]) -> (r: Option<String>)
    ensures
        r is Some <==> valid_utf8(bytes@),
        r matches Some(s) ==> s@ == decode_utf8(bytes@),
{
    std::str::from_utf8(bytes).ok().map(|s| s.to_string())
}

// ---------------------------------------------------------------- exec

fn copy_range(v: &Vec<u8>, lo: usize, hi: usize) -> (r: Vec<u8>)
    requires
        lo <= hi <= v@.len(),
    ensures
        r@ == v@.subrange(lo as int, hi as int),
{
    let mut r: Vec<u8> = Vec::new();
    let mut i = lo;
    while i < hi
        invariant
            lo <= i <= hi <= v@.len(),
            r@ == v@.subrange(lo as int, i as int),
        decreases hi - i,
    {
        r.push(v[i]);
        assert(v@.subrange(lo as int, i + 1) =~= v@.subrange(lo as int, i as int).push(v@[i as int]));
        i += 1;
    }
    r
}

fn find_newline(v: &Vec<u8>) -> (r: Option<usize>)
    ensures
        match first_newline(v@) {
            Some(p) => r == Some(p as usize),
            None => r is None,
        },
{
    let mut i: usize = 0;
    while i < v.len()
        invariant
            i <= v@.len(),
            forall|j: int| 0 <= j < i ==> v@[j] != 10u8,
        decreases v@.len() - i,
    {
        if v[i] == 10u8 {
            proof {
                lemma_first_newline(v@);
                if let Some(p) = first_newline(v@) {
                    assert(p == i);
                }
            }
            return Some(i);
        }
        i += 1;
    }
    proof {
        lemma_first_newline(v@);
    }
    None
}

fn all_ascii_digits(s: &String) -> (r: bool)
    ensures
        r == all_digits(s@),
{
    let v = chars_of(s.as_str());
    let mut i: usize = 0;
    while i < v.len()
        invariant
            v@ == s@,
            i <= v@.len(),
            forall|j: int| 0 <= j < i ==> #[trigger] is_digit(v@[j]),
        decreases v@.len() - i,
    {
        if !('0' <= v[i] && v[i] <= '9') {
            assert(!is_digit(v@[i as int]));
            return false;
        }
        i += 1;
    }
    true
}

impl Default for LoungeCodec {
    fn default() -> (r: Self)
        ensures
            r@ is None,
    {
        LoungeCodec::new()
    }
}

impl LoungeCodec {
    /// A decoder waiting for the first length line.
    pub fn new() -> (r: LoungeCodec)
        ensures
            r@ is None,
    {
        LoungeCodec { state: LoungeCodecState::ReadingSize }
    }

    /// Takes the next whole message off the front of `buf`, if there is one.
    ///
    /// A length line is consumed as soon as it is complete; the content is
    /// consumed once all of it is there.
    pub fn decode(&mut self, buf: &mut Vec<u8>) -> (r: Result<Option<String>, CodecError>)
        ensures
            (final(self)@, final(buf)@, result_view(r)) == decode_spec(old(self)@, old(buf)@),
    {
        let expected: usize;
        match self.state {
            LoungeCodecState::ReadingSize => {
                match find_newline(buf) {
                    None => {
                        return Ok(None);
                    },
                    Some(p) => {
                        proof {
                            lemma_first_newline(buf@);
                        }
                        assert(p < buf.len());
                        let line = copy_range(buf, 0, p);
                        let rest = copy_range(buf, p + 1, buf.len());
                        *buf = rest;
                        match utf8_text(line.as_slice()) {
                            None => {
                                return Err(CodecError::InvalidUtf8Header);
                            },
                            Some(text) => {
                                let t = trim_str(text.as_str());
                                if !all_ascii_digits(&t) {
                                    return Err(CodecError::NonNumericSize(t));
                                }
                                match parse_usize(t.as_str()) {
                                    None => {
                                        return Err(CodecError::InvalidSize(t));
                                    },
                                    Some(n) => {
                                        self.state = LoungeCodecState::ReadingContent {
                                            expected_size: n,
                                        };
                                        expected = n;
                                    },
                                }
                            },
                        }
                    },
                }
            },
            LoungeCodecState::ReadingContent { expected_size } => {
                expected = expected_size;
            },
        }
        if buf.len() >= expected {
            let content = copy_range(buf, 0, expected);
            let rest = copy_range(buf, expected, buf.len());
            *buf = rest;
            match utf8_text(content.as_slice()) {
                None => Err(CodecError::InvalidUtf8Content),
                Some(message) => {
                    self.state = LoungeCodecState::ReadingSize;
                    Ok(Some(message))
                },
            }
        } else {
            Ok(None)
        }
    }

    /// Decodes every whole message in `buf`, in order, stopping at the first
    /// error or when no whole message is left.
    pub fn decode_all(&mut self, buf: &mut Vec<u8>) -> (r: (Vec<String>, Option<CodecError>))
        ensures
            decode_run(old(self)@, old(buf)@) == (
                r.0@.map_values(|s: String| s@),
                opt_fault(r.1),
                final(self)@,
                final(buf)@,
            ),
    {
        let mut out: Vec<String> = Vec::new();
        let ghost st0 = self@;
        let ghost b0 = buf@;
        loop
            invariant
                st0 == old(self)@,
                b0 == old(buf)@,
                decode_run(st0, b0).0 == out@.map_values(|s: String| s@) + decode_run(self@, buf@).0,
                decode_run(st0, b0).1 == decode_run(self@, buf@).1,
                decode_run(st0, b0).2 == decode_run(self@, buf@).2,
                decode_run(st0, b0).3 == decode_run(self@, buf@).3,
            decreases measure(self@, buf@),
        {
            let ghost s_before = self@;
            let ghost b_before = buf@;
            let ghost out_before = out@.map_values(|s: String| s@);
            proof {
                lemma_decode_progress(s_before, b_before);
            }
            let step = self.decode(buf);
            proof {
                assert(decode_spec(s_before, b_before) == (self@, buf@, result_view(step)));
            }
            match step {
                Ok(Some(m)) => {
                    proof {
                        let (ms, e, s2, b2) = decode_run(self@, buf@);
                        assert(decode_run(s_before, b_before) == (seq![m@] + ms, e, s2, b2));
                    }
                    out.push(m);
                    proof {
                        let (ms, e, s2, b2) = decode_run(self@, buf@);
                        assert(out@.map_values(|s: String| s@) =~= out_before.push(m@));
                        assert(out_before + (seq![m@] + ms) =~= out_before.push(m@) + ms);
                    }
                },
                Ok(None) => {
                    proof {
                        assert(decode_run(s_before, b_before) == (Seq::<Seq<char>>::empty(), None::<CodecFault>, self@, buf@));
                        assert(out@.map_values(|s: String| s@) + Seq::<Seq<char>>::empty() =~= out@.map_values(|s: String| s@));
                    }
                    return (out, None);
                },
                Err(e) => {
                    proof {
                        assert(decode_run(s_before, b_before) == (Seq::<Seq<char>>::empty(), Some(e@), self@, buf@));
                        assert(out@.map_values(|s: String| s@) + Seq::<Seq<char>>::empty() =~= out@.map_values(|s: String| s@));
                    }
                    return (out, Some(e));
                },
            }
        }
    }
}

/// The view of an optional codec error.
pub open spec fn opt_fault(e: Option<CodecError>) -> Option<CodecFault> {
    match e {
        Some(e) => Some(e@),
        None => None,
    }
}

/// A measure that every successful decoding step lowers.
pub open spec fn measure(st: Option<usize>, buf: Seq<u8>) -> nat {
    2 * buf.len() + if st is Some { 1nat } else { 0nat }
}

/// A step that yields a message leaves less to decode.
pub proof fn lemma_decode_progress(st: Option<usize>, buf: Seq<u8>)
    ensures
        decode_spec(st, buf).2 matches Ok(Some(_)) ==> measure(decode_spec(st, buf).0, decode_spec(st, buf).1) < measure(st, buf),
{
    if st is None {
        lemma_first_newline(buf);
    }
}

/// Repeated decoding: the messages, the error that stopped it (if any), the
/// final state and the bytes left.
pub open spec fn decode_run(st: Option<usize>, buf: Seq<u8>) -> (
    Seq<Seq<char>>,
    Option<CodecFault>,
    Option<usize>,
    Seq<u8>,
)
    decreases measure(st, buf),
{
    let (s1, b1, r) = decode_spec(st, buf);
    match r {
        Ok(Some(m)) => {
            proof {
                lemma_decode_progress(st, buf);
            }
            let (ms, e, s2, b2) = decode_run(s1, b1);
            (seq![m] + ms, e, s2, b2)
        },
        Ok(None) => (Seq::empty(), None, s1, b1),
        Err(e) => (Seq::empty(), Some(e), s1, b1),
    }
}

// ---------------------------------------------------------------- laws

proof fn lemma_digits_ascii_utf8(s: Seq<char>)
    requires
        all_digits(s),
    ensures
        encode_utf8(s) == ascii_bytes(s),
        forall|i: int| 0 <= i < ascii_bytes(s).len() ==> ascii_bytes(s)[i] != 10u8,
    decreases s.len(),
{
    if s.len() > 0 {
        let t = s.drop_first();
        assert forall|i: int| 0 <= i < t.len() implies #[trigger] is_digit(t[i]) by {
            assert(is_digit(s[i + 1]));
        }
        lemma_digits_ascii_utf8(t);
        assert(is_digit(s[0]));
        let x = s[0] as u32;
        assert(48 <= x <= 57);
        assert((x & 0x7F) == x) by (bit_vector)
            requires
                x <= 0x7F,
        ;
        assert(ascii_bytes(s) =~= seq![s[0] as u8] + ascii_bytes(t));
    }
    assert forall|i: int| 0 <= i < ascii_bytes(s).len() implies ascii_bytes(s)[i] != 10u8 by {
        assert(is_digit(s[i]));
    }
}

proof fn lemma_first_newline_at(a: Seq<u8>, b: Seq<u8>)
    requires
        forall|i: int| 0 <= i < a.len() ==> a[i] != 10u8,
        b.len() > 0,
        b[0] == 10u8,
    ensures
        first_newline(a + b) == Some(a.len() as int),
{
    let x = a + b;
    lemma_first_newline(x);
    assert(x[a.len() as int] == 10u8);
    match first_newline(x) {
        Some(p) => {
            if p < a.len() {
                assert(x[p] == a[p]);
            }
        },
        None => {},
    }
}

proof fn lemma_no_newline(a: Seq<u8>)
    requires
        forall|i: int| 0 <= i < a.len() ==> a[i] != 10u8,
    ensures
        first_newline(a) is None,
{
    lemma_first_newline(a);
}

/// The length line of a frame announces the content's length.
proof fn lemma_header_of_decimal(n: nat)
    requires
        n <= usize::MAX,
    ensures
        header_value(ascii_bytes(decimal(n))) == Ok::<usize, CodecFault>(n as usize),
{
    let d = decimal(n);
    crate::text::lemma_decimal_digits(n);
    lemma_digits_ascii_utf8(d);
    vstd::utf8::encode_utf8_valid_utf8(d);
    vstd::utf8::encode_utf8_decode_utf8(d);
    assert(is_digit(d[0]));
    assert(is_digit(d.last()));
    assert(!is_ws(d[0]));
    assert(!is_ws(d.last()));
    assert(trim_start(d) == d);
    assert(trim_end(d) == d);
    assert(drop_plus(d) == d);
}

/// A whole frame followed by anything decodes to its content and leaves the rest.
pub proof fn lemma_frame_round_trip(content: Seq<u8>, rest: Seq<u8>)
    requires
        valid_utf8(content),
        content.len() <= usize::MAX,
    ensures
        decode_spec(None, frame(content) + rest) == (
            None::<usize>,
            rest,
            Ok::<Option<Seq<char>>, CodecFault>(Some(decode_utf8(content))),
        ),
{
    let n = content.len();
    let h = ascii_bytes(decimal(n));
    let buf = frame(content) + rest;
    crate::text::lemma_decimal_digits(n);
    lemma_digits_ascii_utf8(decimal(n));
    lemma_header_of_decimal(n);
    assert(buf =~= h + (seq![10u8] + content + rest));
    lemma_first_newline_at(h, seq![10u8] + content + rest);
    assert(buf.subrange(0, h.len() as int) =~= h);
    let after = buf.subrange(h.len() as int + 1, buf.len() as int);
    assert(after =~= content + rest);
    assert(after.subrange(0, n as int) =~= content);
    assert(after.subrange(n as int, after.len() as int) =~= rest);
}

/// Decoding is incremental: a frame cut anywhere yields nothing from its
/// first part, and its content once the remainder arrives.
pub proof fn lemma_frame_in_two_parts(content: Seq<u8>, rest: Seq<u8>, k: int)
    requires
        valid_utf8(content),
        content.len() <= usize::MAX,
        0 <= k < frame(content).len(),
    ensures
        ({
            let f = frame(content);
            let first = decode_spec(None, f.subrange(0, k));
            &&& first.2 == Ok::<Option<Seq<char>>, CodecFault>(None)
            &&& decode_spec(first.0, first.1 + f.subrange(k, f.len() as int) + rest) == (
                None::<usize>,
                rest,
                Ok::<Option<Seq<char>>, CodecFault>(Some(decode_utf8(content))),
            )
        }),
{
    let n = content.len();
    let f = frame(content);
    let h = ascii_bytes(decimal(n));
    crate::text::lemma_decimal_digits(n);
    lemma_digits_ascii_utf8(decimal(n));
    lemma_header_of_decimal(n);
    let part = f.subrange(0, k);
    if k <= h.len() {
        assert forall|i: int| 0 <= i < part.len() implies part[i] != 10u8 by {
            assert(part[i] == h[i]);
        }
        lemma_no_newline(part);
        assert(part + f.subrange(k, f.len() as int) + rest =~= f + rest);
        lemma_frame_round_trip(content, rest);
    } else {
        assert(part =~= h + part.subrange(h.len() as int, k));
        lemma_first_newline_at(h, part.subrange(h.len() as int, k));
        assert(part.subrange(0, h.len() as int) =~= h);
        let got = part.subrange(h.len() as int + 1, k);
        assert(got.len() < n);
        let first = decode_spec(None, part);
        assert(first == (Some(n as usize), got, Ok::<Option<Seq<char>>, CodecFault>(None)));
        let whole = got + f.subrange(k, f.len() as int) + rest;
        assert(whole =~= content + rest);
        assert(whole.subrange(0, n as int) =~= content);
        assert(whole.subrange(n as int, whole.len() as int) =~= rest);
    }
}


/// The frames of `contents`, one after the other.
pub open spec fn frames(contents: Seq<Seq<u8>>) -> Seq<u8>
    decreases contents.len(),
{
    if contents.len() == 0 {
        Seq::empty()
    } else {
        frame(contents[0]) + frames(contents.drop_first())
    }
}

/// Decoding a stream that starts with whole frames gives back their contents,
/// in order, then goes on with what follows them as if it stood alone.
pub proof fn lemma_frames_round_trip(contents: Seq<Seq<u8>>, tail: Seq<u8>)
    requires
        forall|i: int| 0 <= i < contents.len() ==> valid_utf8(#[trigger] contents[i]),
        forall|i: int| 0 <= i < contents.len() ==> (#[trigger] contents[i]).len() <= usize::MAX,
    ensures
        ({
            let (ms, e, st, left) = decode_run(None, tail);
            decode_run(None, frames(contents) + tail) == (
                contents.map_values(|c: Seq<u8>| decode_utf8(c)) + ms,
                e,
                st,
                left,
            )
        }),
    decreases contents.len(),
{
    if contents.len() == 0 {
        assert(frames(contents) + tail =~= tail);
        let ms = decode_run(None, tail).0;
        assert(contents.map_values(|c: Seq<u8>| decode_utf8(c)) + ms =~= ms);
    } else {
        let c = contents[0];
        let more = contents.drop_first();
        assert forall|i: int| 0 <= i < more.len() implies valid_utf8(#[trigger] more[i]) && more[i].len() <= usize::MAX by {
            assert(more[i] == contents[i + 1]);
        }
        lemma_frames_round_trip(more, tail);
        let after = frames(more) + tail;
        assert(frames(contents) + tail =~= frame(c) + after);
        lemma_frame_round_trip(c, after);
        let ms = decode_run(None, tail).0;
        assert(contents.map_values(|c: Seq<u8>| decode_utf8(c)) =~= seq![decode_utf8(c)] + more.map_values(
            |c: Seq<u8>| decode_utf8(c),
        ));
        assert(contents.map_values(|c: Seq<u8>| decode_utf8(c)) + ms =~= seq![decode_utf8(c)] + (
        more.map_values(|c: Seq<u8>| decode_utf8(c)) + ms));
    }
}

} // verus!
