use rtsp_webrtc::codec::{decodable, decode, encodable, encode, text_from_decoded, TextDecodeError};

#[test]
fn encode_gives_standard_base64() {
    assert_eq!(encode("hello world"), "aGVsbG8gd29ybGQ=");
    assert_eq!(encode(""), "");
    assert_eq!(encode("a"), "YQ==");
    assert_eq!(encode("ab"), "YWI=");
    assert_eq!(encode("abc"), "YWJj");
}

#[test]
fn decode_reads_base64_text() {
    assert_eq!(decode("aGVsbG8gd29ybGQ=").unwrap(), "hello world");
    assert_eq!(decode("").unwrap(), "");
}

#[test]
fn decode_undoes_encode() {
    for s in ["", "x", "{\"type\":\"offer\",\"sdp\":\"v=0\"}", "ünïcödé ✓", "two\nlines"] {
        assert_eq!(decode(&encode(s)).unwrap(), s);
    }
}

#[test]
fn decode_refuses_non_base64() {
    assert_eq!(decode("not base64!"), Err(TextDecodeError::InvalidBase64));
    assert_eq!(decode("a"), Err(TextDecodeError::InvalidBase64));
    assert_eq!(TextDecodeError::InvalidBase64.message(), "invalid base64 text");
}

#[test]
fn decode_refuses_bytes_that_are_not_utf8() {
    // "/w==" is the single byte 0xFF.
    assert_eq!(decode("/w=="), Err(TextDecodeError::InvalidUtf8));
    assert_eq!(TextDecodeError::InvalidUtf8.message(), "decoded bytes are not valid UTF-8");
}

#[test]
fn text_from_decoded_reads_utf8() {
    assert_eq!(text_from_decoded(Some(vec![104, 105])).unwrap(), "hi");
    assert_eq!(text_from_decoded(Some(vec![])).unwrap(), "");
    assert_eq!(text_from_decoded(Some(vec![0xC3, 0xA9])).unwrap(), "é");
    assert_eq!(text_from_decoded(Some(vec![0xC3])), Err(TextDecodeError::InvalidUtf8));
    assert_eq!(text_from_decoded(None), Err(TextDecodeError::InvalidBase64));
}

#[test]
fn encoded_length_is_four_per_three_bytes_padded() {
    assert_eq!(encode("").len(), 0);
    assert_eq!(encode("a").len(), 4);
    assert_eq!(encode("abc").len(), 4);
    assert_eq!(encode("abcd").len(), 8);
    assert_eq!(encode("é").len(), 4);
}

#[test]
fn encoded_text_uses_the_standard_alphabet_and_padding() {
    for s in ["", "a", "ab", "abc", "\u{ff}\u{fe}?>", "hello world"] {
        let e = encode(s);
        let pad = (3 - s.len() % 3) % 3;
        let body = &e[..e.len() - pad];
        assert!(body.chars().all(|c| c.is_ascii_alphanumeric() || c == '+' || c == '/'));
        assert!(e[e.len() - pad..].chars().all(|c| c == '='));
    }
    assert_eq!(encode("hello"), "aGVsbG8=");
    assert_eq!(encode("\u{3ff}\u{3ff}\u{3ff}"), "z7/Pv8+/");
}

#[test]
fn length_guards() {
    assert!(encodable(0) && encodable(1_000_000));
    assert!(encodable(usize::MAX / 4 * 3));
    assert!(!encodable(usize::MAX));
    assert!(decodable(usize::MAX - 7));
    assert!(!decodable(usize::MAX - 6));
}
