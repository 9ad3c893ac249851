use youtube_lounge_rs::codec::CodecError;
use youtube_lounge_rs::LoungeCodec;

fn decode_one(codec: &mut LoungeCodec, buf: &mut Vec<u8>) -> Result<Option<String>, CodecError> {
    codec.decode(buf)
}

#[test]
fn decodes_a_whole_frame() {
    let mut codec = LoungeCodec::new();
    let mut buf = b"5\nhello7\nrest...".to_vec();
    assert_eq!(decode_one(&mut codec, &mut buf).unwrap(), Some("hello".to_string()));
    assert_eq!(buf, b"7\nrest...".to_vec());
    assert_eq!(decode_one(&mut codec, &mut buf).unwrap(), Some("rest...".to_string()));
    assert!(buf.is_empty());
    assert_eq!(decode_one(&mut codec, &mut buf).unwrap(), None);
}

#[test]
fn frame_split_across_chunks() {
    let frame = "11\n[[1,[\"x\"]]]".as_bytes().to_vec();
    for k in 0..frame.len() {
        let mut codec = LoungeCodec::new();
        let mut buf = frame[..k].to_vec();
        assert_eq!(decode_one(&mut codec, &mut buf).unwrap(), None, "cut at {}", k);
        buf.extend_from_slice(&frame[k..]);
        assert_eq!(
            decode_one(&mut codec, &mut buf).unwrap(),
            Some("[[1,[\"x\"]]]".to_string()),
            "cut at {}",
            k
        );
        assert!(buf.is_empty());
    }
}

#[test]
fn length_line_is_trimmed() {
    let mut codec = LoungeCodec::default();
    let mut buf = b" 3 \r\nabc".to_vec();
    assert_eq!(decode_one(&mut codec, &mut buf).unwrap(), Some("abc".to_string()));
}

#[test]
fn content_is_counted_in_bytes() {
    let mut codec = LoungeCodec::new();
    let mut buf = "2\n\u{e9}x".as_bytes().to_vec();
    assert_eq!(decode_one(&mut codec, &mut buf).unwrap(), Some("\u{e9}".to_string()));
    assert_eq!(buf, b"x".to_vec());
}

#[test]
fn decode_errors() {
    let mut codec = LoungeCodec::new();
    let mut buf = b"abc\n".to_vec();
    match decode_one(&mut codec, &mut buf) {
        Err(e @ CodecError::NonNumericSize(_)) => {
            assert_eq!(e.message(), "Expected numeric size, got: abc")
        }
        other => panic!("unexpected {:?}", other),
    }

    let mut codec = LoungeCodec::new();
    let mut buf = b"\n".to_vec();
    match decode_one(&mut codec, &mut buf) {
        Err(e @ CodecError::InvalidSize(_)) => assert_eq!(e.message(), "Invalid size: "),
        other => panic!("unexpected {:?}", other),
    }

    let mut codec = LoungeCodec::new();
    let mut buf = b"99999999999999999999999\nx".to_vec();
    assert!(matches!(decode_one(&mut codec, &mut buf), Err(CodecError::InvalidSize(_))));

    let mut codec = LoungeCodec::new();
    let mut buf = vec![0xffu8, b'\n'];
    match decode_one(&mut codec, &mut buf) {
        Err(e @ CodecError::InvalidUtf8Header) => {
            assert_eq!(e.message(), "Invalid UTF-8 in size header")
        }
        other => panic!("unexpected {:?}", other),
    }

    let mut codec = LoungeCodec::new();
    let mut buf = vec![b'1', b'\n', 0xffu8, b'2'];
    match decode_one(&mut codec, &mut buf) {
        Err(e @ CodecError::InvalidUtf8Content) => {
            assert_eq!(e.message(), "Invalid UTF-8 in message content")
        }
        other => panic!("unexpected {:?}", other),
    }
    assert_eq!(buf, b"2".to_vec());
}

#[test]
fn decode_all_stops_at_an_error() {
    let mut codec = LoungeCodec::new();
    let mut buf = b"2\nab1\ncx\nzz".to_vec();
    let (msgs, err) = codec.decode_all(&mut buf);
    assert_eq!(msgs, vec!["ab".to_string(), "c".to_string()]);
    assert!(matches!(err, Some(CodecError::NonNumericSize(_))));

    let mut codec = LoungeCodec::new();
    let mut buf = b"2\nab0\n3\nxy".to_vec();
    let (msgs, err) = codec.decode_all(&mut buf);
    assert_eq!(msgs, vec!["ab".to_string(), String::new()]);
    assert!(err.is_none());
    assert_eq!(buf, b"xy".to_vec());
}

#[test]
fn decode_all_returns_every_frame_of_a_stream() {
    let mut codec = LoungeCodec::new();
    let mut buf = b"5\nhello3\n[1]2\n\xc3\xa911\nabc".to_vec();
    let (msgs, err) = codec.decode_all(&mut buf);
    assert!(err.is_none());
    assert_eq!(msgs, vec!["hello".to_string(), "[1]".to_string(), "é".to_string()]);
    assert_eq!(buf, b"abc".to_vec());
    let mut more = buf.clone();
    more.extend_from_slice(b"defghijk");
    let (msgs, err) = codec.decode_all(&mut more);
    assert!(err.is_none());
    assert_eq!(msgs, vec!["abcdefghijk".to_string()]);
    assert!(more.is_empty());
}
