use vstd::prelude::*;
use vstd::string::StringSliceAdditionalSpecFns;
use webrtc::peer_connection::sdp::session_description::RTCSessionDescription;
use crate::codec::{decode, decodable_len, decoded_text, TextDecodeError};

verus! {

/// A WebRTC session description; the library hands it on without looking inside.
#[verifier::external_type_specification]
#[verifier::external_body]
pub struct ExRTCSessionDescription(RTCSessionDescription);

/// The error that `serde_json` reports; only whether it came back matters here.
#[verifier::external_type_specification]
#[verifier::external_body]
pub struct ExSerdeJsonError(serde_json::Error);

/// Whether `serde_json::from_str` reads the text as a WebRTC session description
/// (through the reader that `Deserialize` derives for it).
pub uninterp spec fn is_session_description_json(text: Seq<char>) -> bool;

/// The session description that `serde_json::from_str` reads from the text,
/// where it reads one.
pub uninterp spec fn session_description_of(text: Seq<char>) -> RTCSessionDescription;

/// Calls `serde_json::from_str` for a session description. Claimed: it succeeds
/// exactly on the texts named by `is_session_description_json`, and then gives
/// the description named by `session_description_of` for that text.
#[verifier::external_body]
fn parse_session_description(text: &str) -> (res: Result<RTCSessionDescription, serde_json::Error>)
    ensures
        res is Ok <==> is_session_description_json(text@),
        res matches Ok(d) ==> d == session_description_of(text@),
{
    serde_json::from_str::<RTCSessionDescription>(text)
}

/// Why a viewer's offer was refused.
#[derive(Debug, Clone, Copy, PartialEq, Eq, Structural)]
pub enum OfferError {
    /// The offer is not Base64 of UTF-8 text.
    Undecodable(TextDecodeError),
    /// The decoded text is not a session description in JSON.
    NotSessionDescription,
}

impl OfferError {
    /// A short description of the error.
    pub fn message(&self) -> (res: &'static str)
        ensures
            *self matches OfferError::Undecodable(e) ==> (e is InvalidBase64 ==> res@ == "invalid base64 text"@)
                && (e is InvalidUtf8 ==> res@ == "decoded bytes are not valid UTF-8"@),
            *self is NotSessionDescription ==> res@ == "not a session description"@,
    {
        match self {
            OfferError::Undecodable(e) => e.message(),
            OfferError::NotSessionDescription => "not a session description",
        }
    }
}

/// The offer once the JSON reader has (or has not) made a session description of it.
pub fn offer_from_parsed(parsed: Option<RTCSessionDescription>) -> (res: Result<RTCSessionDescription, OfferError>)
    ensures
        parsed is Some <==> res is Ok,
        parsed is None ==> res == Err::<RTCSessionDescription, OfferError>(OfferError::NotSessionDescription),
        res matches Ok(d) ==> parsed == Some(d),
{
    match parsed {
        Some(d) => Ok(d),
        None => Err(OfferError::NotSessionDescription),
    }
}

/// Reads a viewer's offer: Base64 of the JSON of a session description.
pub fn read_offer(desc_data: &str) -> (res: Result<RTCSessionDescription, OfferError>)
    requires
        decodable_len(desc_data.spec_bytes().len()),
    ensures
        match decoded_text(desc_data@) {
            Err(e) => res == Err::<RTCSessionDescription, OfferError>(OfferError::Undecodable(e)),
            Ok(t) => (res is Ok <==> is_session_description_json(t))
                && (res matches Ok(d) ==> d == session_description_of(t))
                && (!is_session_description_json(t) ==>
                    res == Err::<RTCSessionDescription, OfferError>(OfferError::NotSessionDescription)),
        },
{
    match decode(desc_data) {
        Err(e) => Err(OfferError::Undecodable(e)),
        Ok(text) => {
            let parsed = match parse_session_description(text.as_str()) {
                Ok(d) => Some(d),
                Err(_) => None,
            };
            offer_from_parsed(parsed)
        },
    }
}

} // verus!
