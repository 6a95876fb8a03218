use rtsp_webrtc::api::{authorize, view_response, AddOutcome, RouteError, StopOutcome, StopSource};
use rtsp_webrtc::sources::Sources;

fn registry() -> Sources<u32, u32> {
    let mut s = Sources::new();
    s.add("rtsp://cam".to_string(), 1, 100);
    s
}

#[test]
fn authorize_admits_only_the_admin_token() {
    assert_eq!(authorize(&"123888".to_string(), &"123888".to_string()), Ok(()));
    assert_eq!(authorize(&"123888".to_string(), &"123889".to_string()), Err(RouteError::WrongToken));
    assert_eq!(authorize(&"123888".to_string(), &"".to_string()), Err(RouteError::WrongToken));
    assert_eq!(RouteError::WrongToken.message(), "token is wrong");
}

#[test]
fn recording_a_created_track_adds_a_streaming_source() {
    let mut s = registry();
    let out = s.record_new_track("rtsp://new".to_string(), Some((2, 200)));
    assert_eq!(out, AddOutcome::Done);
    assert_eq!(out.message(), "Done");
    assert_eq!(s.list.len(), 2);
    assert!(s.list[1].state);
    assert_eq!(s.list[1].url, "rtsp://new");
    assert_eq!((s.list[1].track, s.list[1].pipe), (2, 200));
}

#[test]
fn a_failed_pipeline_adds_nothing() {
    let mut s = registry();
    let out = s.record_new_track("rtsp://bad".to_string(), None);
    assert_eq!(out, AddOutcome::NotDone);
    assert_eq!(out.message(), "Not Done");
    assert_eq!(s.list.len(), 1);
}

#[test]
fn stop_request_stops_then_reports_already_stopped() {
    let mut s = registry();
    let admin = "secret".to_string();
    let req = StopSource { id: 0, token: "secret".to_string() };
    let first = s.stop_request(&admin, &req);
    assert_eq!(first, Ok(StopOutcome::Stopped));
    assert_eq!(StopOutcome::Stopped.message(), "Done");
    assert!(!s.list[0].state);
    let second = s.stop_request(&admin, &req);
    assert_eq!(second, Ok(StopOutcome::AlreadyStopped));
    assert_eq!(StopOutcome::AlreadyStopped.message(), "It's already was stoped");
}

#[test]
fn stop_request_with_wrong_token_changes_nothing() {
    let mut s = registry();
    // The id is not checked when the token is wrong.
    let req = StopSource { id: 5, token: "guess".to_string() };
    assert_eq!(s.stop_request(&"secret".to_string(), &req), Err(RouteError::WrongToken));
    assert!(s.list[0].state);
}

#[test]
fn stop_source_by_position() {
    let mut s = registry();
    assert_eq!(s.stop_source(0), StopOutcome::Stopped);
    assert_eq!(s.stop_source(0), StopOutcome::AlreadyStopped);
}

#[test]
fn connect_request_follows_the_source_state() {
    let mut s = registry();
    assert_eq!(s.connect_request(0), Ok(&1));
    s.stop_source(0);
    assert_eq!(s.connect_request(0), Err(RouteError::InactiveSource));
    assert_eq!(RouteError::InactiveSource.message(), "this source isn't active");
}

#[test]
fn view_response_answers_for_the_same_source() {
    let ok = view_response(3, Some("YW5zd2Vy".to_string())).ok().unwrap();
    assert_eq!(ok.id, 3);
    assert_eq!(ok.session_description, "YW5zd2Vy");
    assert_eq!(view_response(3, None).err(), Some(RouteError::PeerConnection));
    assert_eq!(RouteError::PeerConnection.message(), "error when try to connect to peer");
}
