use rtsp_webrtc::sources::{Source, SourceView, Sources, SourcesView};

fn two_sources() -> Sources<u32, &'static str> {
    let mut s = Sources::new();
    s.add("rtsp://one".to_string(), 10, "pipe-one");
    s.add("rtsp://two".to_string(), 20, "pipe-two");
    s
}

#[test]
fn new_registry_is_empty() {
    let s: Sources<u32, ()> = Sources::new();
    assert!(s.list.is_empty());
    assert_eq!(s.next_id(), 0);
}

#[test]
fn added_sources_stream_in_order() {
    let s = two_sources();
    assert_eq!(s.next_id(), 2);
    assert!(s.list[0].state && s.list[1].state);
    assert_eq!(s.list[0].url, "rtsp://one");
    assert_eq!(s.list[1].url, "rtsp://two");
    assert_eq!(s.list[1].track, 20);
    assert_eq!(s.list[1].pipe, "pipe-two");
}

#[test]
fn connect_hands_out_the_track_of_a_streaming_source() {
    let src = Source { state: true, url: "rtsp://x".to_string(), track: 7u8, pipe: () };
    assert_eq!(src.connect(), Ok(&7u8));
}

#[test]
fn connect_refuses_a_stopped_source() {
    let mut src = Source { state: true, url: "rtsp://x".to_string(), track: 7u8, pipe: () };
    src.stop();
    assert!(!src.state);
    assert_eq!(src.url, "rtsp://x");
    assert_eq!(src.connect(), Err("this source isn't active"));
}

#[test]
fn stop_twice_is_stop_once() {
    let mut src = Source { state: true, url: "u".to_string(), track: 1u8, pipe: 2u8 };
    src.stop();
    src.stop();
    assert!(!src.state);
    assert_eq!((src.track, src.pipe), (1, 2));
}

#[test]
fn listing_mirrors_sources() {
    let mut s = two_sources();
    s.list[0].stop();
    let v = SourcesView::new(&s);
    assert_eq!(v.list.len(), 2);
    assert!(!v.list[0].state);
    assert_eq!(v.list[0].url, "rtsp://one");
    assert!(v.list[1].state);
    assert_eq!(v.list[1].url, "rtsp://two");
    let e = SourceView::new(&s.list[1]);
    assert!(e.state);
    assert_eq!(e.url, "rtsp://two");
}

#[test]
fn listing_of_no_sources_is_empty() {
    let s: Sources<u8, u8> = Sources::new();
    assert!(SourcesView::new(&s).list.is_empty());
}

#[test]
fn a_stopped_source_stays_stopped_in_later_listings() {
    let mut s = two_sources();
    s.list[0].stop();
    s.add("rtsp://three".to_string(), 30, "pipe-three");
    s.list[1].stop();
    s.add("rtsp://four".to_string(), 40, "pipe-four");
    let v = SourcesView::new(&s);
    assert_eq!(v.list.len(), 4);
    assert!(!v.list[0].state);
    assert_eq!(v.list[0].url, "rtsp://one");
    assert!(!v.list[1].state);
    assert_eq!(v.list[1].url, "rtsp://two");
    assert!(v.list[2].state && v.list[3].state);
}
