use rtsp_webrtc::codec::{encode, TextDecodeError};
use rtsp_webrtc::offer::{offer_from_parsed, read_offer, OfferError};

#[test]
fn read_offer_accepts_an_encoded_session_description() {
    let json = "{\"type\":\"offer\",\"sdp\":\"v=0\\r\\n\"}";
    let offer = read_offer(&encode(json)).ok().unwrap();
    assert_eq!(offer.sdp, "v=0\r\n");
}

#[test]
fn read_offer_refuses_text_that_is_not_a_session_description() {
    assert_eq!(read_offer(&encode("not json")).err(), Some(OfferError::NotSessionDescription));
    assert_eq!(read_offer(&encode("{\"sdp\":\"v=0\"}")).err(), Some(OfferError::NotSessionDescription));
    assert_eq!(OfferError::NotSessionDescription.message(), "not a session description");
}

#[test]
fn read_offer_refuses_what_does_not_decode() {
    assert_eq!(read_offer("not base64!").err(), Some(OfferError::Undecodable(TextDecodeError::InvalidBase64)));
    assert_eq!(read_offer("/w==").err(), Some(OfferError::Undecodable(TextDecodeError::InvalidUtf8)));
    assert_eq!(OfferError::Undecodable(TextDecodeError::InvalidBase64).message(), "invalid base64 text");
}

#[test]
fn offer_from_parsed_refuses_nothing_parsed() {
    assert_eq!(offer_from_parsed(None).err(), Some(OfferError::NotSessionDescription));
    assert!(offer_from_parsed(Some(Default::default())).is_ok());
}
