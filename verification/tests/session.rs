use rtsp_webrtc::codec::decode;
use rtsp_webrtc::session::{
    after_play_attempt, encode_answer, pipeline_description, sample_verdict, PlayStep, SampleVerdict,
    SessionError, APPSINK_NAME, PLAY_ATTEMPTS, PLAY_RETRY_DELAY_MS,
};

#[test]
fn pipeline_description_pulls_the_given_url() {
    assert_eq!(
        pipeline_description("rtsp://wowzaec2demo.streamlock.net/vod/mp4:BigBuckBunny_115k.mp4"),
        "rtspsrc location=rtsp://wowzaec2demo.streamlock.net/vod/mp4:BigBuckBunny_115k.mp4 \
        ! decodebin ! videoconvert ! vp8enc error-resilient=partitions keyframe-max-dist=10 auto-alt-ref=true \
        cpu-used=5 deadline=1 ! rtpvp8pay ! appsink name=appsink"
    );
    assert!(pipeline_description("x").ends_with(&format!("appsink name={}", APPSINK_NAME)));
}

#[test]
fn play_attempts_retry_until_the_limit() {
    assert_eq!(PLAY_ATTEMPTS, 10);
    assert_eq!(PLAY_RETRY_DELAY_MS, 500);
    assert_eq!(after_play_attempt(0, true), PlayStep::Playing);
    assert_eq!(after_play_attempt(0, false), PlayStep::WaitThenRetry { next_attempt: 1 });
    assert_eq!(after_play_attempt(8, false), PlayStep::WaitThenRetry { next_attempt: 9 });
    assert_eq!(after_play_attempt(9, false), PlayStep::WaitThenFail);
    assert_eq!(after_play_attempt(9, true), PlayStep::Playing);
}

#[test]
fn a_run_of_failures_gives_up_after_ten_attempts() {
    let mut attempt = 0;
    let mut tries = 0;
    loop {
        tries += 1;
        match after_play_attempt(attempt, false) {
            PlayStep::WaitThenRetry { next_attempt } => attempt = next_attempt,
            PlayStep::WaitThenFail => break,
            PlayStep::Playing => unreachable!(),
        }
    }
    assert_eq!(tries, 10);
}

#[test]
fn sample_verdicts() {
    assert_eq!(sample_verdict(true, true, true, true), SampleVerdict::Sent);
    assert_eq!(sample_verdict(false, false, false, false), SampleVerdict::EndOfStream);
    assert_eq!(sample_verdict(true, false, true, true), SampleVerdict::Failed);
    assert_eq!(sample_verdict(true, true, false, true), SampleVerdict::Failed);
    assert_eq!(sample_verdict(true, true, true, false), SampleVerdict::Failed);
}

#[test]
fn answer_is_the_local_description_in_base64() {
    let json = "{\"type\":\"answer\",\"sdp\":\"v=0\"}".to_string();
    let a = encode_answer(Some(json.clone())).unwrap();
    assert_eq!(a, "eyJ0eXBlIjoiYW5zd2VyIiwic2RwIjoidj0wIn0=");
    assert_eq!(decode(&a).unwrap(), json);
    assert_eq!(encode_answer(None), Err(SessionError::NoLocalDescription));
    assert_eq!(SessionError::NoLocalDescription.message(), "generate local_description failed!");
}
