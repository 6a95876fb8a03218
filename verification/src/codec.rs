use vstd::prelude::*;
use vstd::utf8::{decode_utf8, encode_utf8, encode_utf8_decode_utf8, encode_utf8_valid_utf8, valid_utf8};
use vstd::string::StringSliceAdditionalSpecFns;

verus! {

/// The error that `base64::decode` reports; only whether it came back matters here.
#[verifier::external_type_specification]
#[verifier::external_body]
pub struct ExBase64DecodeError(base64::DecodeError);

/// The error that `String::from_utf8` reports for bytes that are not UTF-8.
#[verifier::external_type_specification]
#[verifier::external_body]
pub struct ExFromUtf8Error(std::string::FromUtf8Error);

/// The text that `base64::encode` (standard alphabet, with padding) makes of the given bytes.
pub uninterp spec fn base64_encoding(bytes: Seq<u8>) -> Seq<char>;

/// What `base64::decode` (standard alphabet) gives back for the given input bytes:
/// the decoded bytes, or `None` where it reports a `DecodeError`.
pub uninterp spec fn base64_decoding(text: Seq<u8>) -> Option<Seq<u8>>;

/// How many bytes padded Base64 takes for `len` input bytes: four for every
/// three, and four more for a last incomplete group.
pub open spec fn base64_len(len: nat) -> nat {
    if len % 3 == 0 {
        len / 3 * 4
    } else {
        len / 3 * 4 + 4
    }
}

/// How many `=` close padded Base64 of `len` input bytes.
pub open spec fn base64_padding(len: nat) -> nat {
    ((3 - len % 3) % 3) as nat
}

/// Whether a character is one of the 64 symbols of the standard Base64 alphabet.
pub open spec fn is_base64_symbol(c: char) -> bool {
    ('A' <= c <= 'Z') || ('a' <= c <= 'z') || ('0' <= c <= '9') || c == '+' || c == '/'
}

/// Whether a text has the shape of padded standard Base64 of `len` bytes: the
/// right length, symbols of the alphabet, then the right number of `=`.
pub open spec fn is_base64_text_of_len(text: Seq<char>, len: nat) -> bool {
    &&& text.len() == base64_len(len)
    &&& forall|i: int| 0 <= i < text.len() - base64_padding(len) ==> #[trigger] is_base64_symbol(text[i])
    &&& forall|i: int| text.len() - base64_padding(len) <= i < text.len() ==> #[trigger] text[i] == '='
}

/// Whether `base64::encode` can size its output buffer for an input of `len` bytes
/// (it panics when that size overflows `usize`).
pub open spec fn encodable_len(len: nat) -> bool {
    base64_len(len) <= usize::MAX
}

/// Whether `base64::decode` can size its buffers for an input of `len` bytes
/// (it panics when `len + 7` overflows `usize`).
pub open spec fn decodable_len(len: nat) -> bool {
    len + 7 <= usize::MAX
}

/// Calls `base64::encode`. Claimed: the result is the named encoding of the
/// input, made of symbols of the standard alphabet closed by the padding that
/// `add_padding` writes, its UTF-8 form is as long as `encoded_size` computes,
/// and `base64::decode` gives the input back from the result's bytes.
#[verifier::external_body]
fn base64_encode(bytes: &[u8]) -> (res: String)
    requires
        encodable_len(bytes@.len()),
    ensures
        res@ == base64_encoding(bytes@),
        is_base64_text_of_len(res@, bytes@.len()),
        encode_utf8(res@).len() == base64_len(bytes@.len()),
        base64_decoding(encode_utf8(res@)) == Some(bytes@),
{
    base64::encode(bytes)
}

/// Calls `base64::decode`. Claimed: `Ok` carries the named decoding of the input,
/// and `Err` comes exactly where that decoding is `None`.
#[verifier::external_body]
fn base64_decode(text: &[u8]) -> (res: Result<Vec<u8>, base64::DecodeError>)
    requires
        decodable_len(text@.len()),
    ensures
        match res {
            Ok(v) => base64_decoding(text@) == Some(v@),
            Err(_) => base64_decoding(text@) is None,
        },
{
    base64::decode(text)
}

/// Calls `String::from_utf8`. Claimed, as its documentation says: it succeeds exactly
/// on valid UTF-8, and then holds the characters those bytes encode.
#[verifier::external_body]
fn string_from_utf8(bytes: Vec<u8>) -> (res: Result<String, std::string::FromUtf8Error>)
    ensures
        res is Ok <==> valid_utf8(bytes@),
        res matches Ok(s) ==> s@ == decode_utf8(bytes@),
{
    String::from_utf8(bytes)
}

/// Why a text could not be decoded.
#[derive(Debug, Clone, Copy, PartialEq, Eq, Structural)]
pub enum TextDecodeError {
    /// The text is not Base64.
    InvalidBase64,
    /// The decoded bytes are not UTF-8.
    InvalidUtf8,
}

impl TextDecodeError {
    /// A short description of the error.
    pub fn message(&self) -> (res: &'static str)
        ensures
            *self is InvalidBase64 ==> res@ == "invalid base64 text"@,
            *self is InvalidUtf8 ==> res@ == "decoded bytes are not valid UTF-8"@,
    {
        match self {
            TextDecodeError::InvalidBase64 => "invalid base64 text",
            TextDecodeError::InvalidUtf8 => "decoded bytes are not valid UTF-8",
        }
    }
}

/// The text that bytes coming out of a Base64 decoder stand for: `None` (the decoder
/// refused) is `InvalidBase64`, bytes that are not UTF-8 are `InvalidUtf8`.
pub open spec fn text_of_bytes(bytes: Option<Seq<u8>>) -> Result<Seq<char>, TextDecodeError> {
    match bytes {
        None => Err(TextDecodeError::InvalidBase64),
        Some(b) => if valid_utf8(b) {
            Ok(decode_utf8(b))
        } else {
            Err(TextDecodeError::InvalidUtf8)
        },
    }
}

/// The bytes that an optional buffer holds.
pub open spec fn bytes_of(bytes: Option<Vec<u8>>) -> Option<Seq<u8>> {
    match bytes {
        Some(v) => Some(v@),
        None => None,
    }
}

/// Reading bytes as text: the UTF-8 bytes of any text read back as that text,
/// bytes that are not UTF-8 are refused as `InvalidUtf8`, and a refused Base64
/// decoding is `InvalidBase64`.
pub proof fn reading_bytes_as_text(chars: Seq<char>, bytes: Seq<u8>)
    ensures
        text_of_bytes(Some(encode_utf8(chars))) == Ok::<Seq<char>, TextDecodeError>(chars),
        !valid_utf8(bytes) ==> text_of_bytes(Some(bytes)) == Err::<Seq<char>, TextDecodeError>(TextDecodeError::InvalidUtf8),
        text_of_bytes(None) == Err::<Seq<char>, TextDecodeError>(TextDecodeError::InvalidBase64),
{
    encode_utf8_valid_utf8(chars);
    encode_utf8_decode_utf8(chars);
}

/// What `decode` gives for a text: the Base64 decoding of its UTF-8 bytes, read as UTF-8.
pub open spec fn decoded_text(s: Seq<char>) -> Result<Seq<char>, TextDecodeError> {
    text_of_bytes(base64_decoding(encode_utf8(s)))
}

/// What `encode` gives for a text: the Base64 encoding of its UTF-8 bytes.
pub open spec fn encoded_text(s: Seq<char>) -> Seq<char> {
    base64_encoding(encode_utf8(s))
}

/// Reads the bytes that a Base64 decoder gave back (or `None` where it refused) as UTF-8 text.
pub fn text_from_decoded(bytes: Option<Vec<u8>>) -> (res: Result<String, TextDecodeError>)
    ensures
        match res {
            Ok(t) => text_of_bytes(bytes_of(bytes)) == Ok::<Seq<char>, TextDecodeError>(t@),
            Err(e) => text_of_bytes(bytes_of(bytes)) == Err::<Seq<char>, TextDecodeError>(e),
        },
{
    match bytes {
        None => Err(TextDecodeError::InvalidBase64),
        Some(b) => match string_from_utf8(b) {
            Ok(s) => Ok(s),
            Err(_) => Err(TextDecodeError::InvalidUtf8),
        },
    }
}

/// Whether `encode` accepts a text of `len` UTF-8 bytes.
pub fn encodable(len: usize) -> (r: bool)
    ensures
        r == encodable_len(len as nat),
{
    let q = len / 3;
    if q > usize::MAX / 4 {
        false
    } else if len % 3 == 0 {
        true
    } else {
        q * 4 <= usize::MAX - 4
    }
}

/// Whether `decode` accepts a text of `len` UTF-8 bytes.
pub fn decodable(len: usize) -> (r: bool)
    ensures
        r == decodable_len(len as nat),
{
    len <= usize::MAX - 7
}

/// Decodes a Base64 text into the UTF-8 string it carries.
pub fn decode(s: &str) -> (res: Result<String, TextDecodeError>)
    requires
        decodable_len(s.spec_bytes().len()),
    ensures
        match res {
            Ok(t) => decoded_text(s@) == Ok::<Seq<char>, TextDecodeError>(t@),
            Err(e) => decoded_text(s@) == Err::<Seq<char>, TextDecodeError>(e),
        },
{
    let raw = s.as_bytes();
    let bytes = match base64_decode(raw) {
        Ok(v) => Some(v),
        Err(_) => None,
    };
    text_from_decoded(bytes)
}

/// Encodes the UTF-8 bytes of a text in Base64; decoding the result gives the text back.
pub fn encode(b: &str) -> (res: String)
    requires
        encodable_len(b.spec_bytes().len()),
    ensures
        res@ == encoded_text(b@),
        is_base64_text_of_len(res@, encode_utf8(b@).len()),
        encode_utf8(res@).len() == base64_len(encode_utf8(b@).len()),
        decoded_text(res@) == Ok::<Seq<char>, TextDecodeError>(b@),
{
    let res = base64_encode(b.as_bytes());
    proof {
        encode_utf8_valid_utf8(b@);
        encode_utf8_decode_utf8(b@);
    }
    res
}

} // verus!
