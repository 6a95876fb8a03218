use vstd::prelude::*;
use vstd::string::*;
use vstd::utf8::encode_utf8;
use crate::codec::{encode, encodable_len, encoded_text, decoded_text, TextDecodeError};

verus! {

/// The name of the sink element from which encoded RTP packets are pulled.
pub const APPSINK_NAME: &'static str = "appsink";

/// The first part of the pipeline description, up to the RTSP location.
pub open spec fn pipeline_head() -> Seq<char> {
    "rtspsrc location="@
}

/// The rest of the pipeline description: decode, convert, encode as VP8,
/// packetize as RTP and hand the packets to the app sink.
pub open spec fn pipeline_tail() -> Seq<char> {
    " ! decodebin ! videoconvert ! vp8enc error-resilient=partitions keyframe-max-dist=10 auto-alt-ref=true cpu-used=5 deadline=1 ! rtpvp8pay ! appsink name=appsink"@
}

/// The launch description of the pipeline that pulls the RTSP stream at `url`
/// and turns it into VP8 RTP packets.
pub fn pipeline_description(url: &str) -> (res: String)
    ensures
        res@ == pipeline_head() + url@ + pipeline_tail(),
{
    let head = String::from_str("rtspsrc location=");
    let with_url = head.concat(url);
    with_url.concat(" ! decodebin ! videoconvert ! vp8enc error-resilient=partitions keyframe-max-dist=10 auto-alt-ref=true cpu-used=5 deadline=1 ! rtpvp8pay ! appsink name=appsink")
}

/// How many times the pipeline is asked to start playing.
pub const PLAY_ATTEMPTS: u32 = 10;

/// How long to wait after a failed attempt to start playing, in milliseconds.
pub const PLAY_RETRY_DELAY_MS: u64 = 500;

/// What follows an attempt to start the pipeline.
#[derive(Debug, Clone, Copy, PartialEq, Eq, Structural)]
pub enum PlayStep {
    /// The pipeline plays.
    Playing,
    /// Wait `PLAY_RETRY_DELAY_MS`, then make the attempt numbered `next_attempt`.
    WaitThenRetry { next_attempt: u32 },
    /// Wait `PLAY_RETRY_DELAY_MS`, then give up: the pipeline never played.
    WaitThenFail,
}

/// The step after attempt number `attempt` (counted from 0) succeeded or failed.
pub open spec fn play_step(attempt: u32, ok: bool) -> PlayStep {
    if ok {
        PlayStep::Playing
    } else if attempt + 1 < PLAY_ATTEMPTS {
        PlayStep::WaitThenRetry { next_attempt: (attempt + 1) as u32 }
    } else {
        PlayStep::WaitThenFail
    }
}

/// Decides what follows attempt number `attempt` to start the pipeline.
pub fn after_play_attempt(attempt: u32, ok: bool) -> (res: PlayStep)
    requires
        attempt < PLAY_ATTEMPTS,
    ensures
        res == play_step(attempt, ok),
{
    if ok {
        PlayStep::Playing
    } else if attempt + 1 < PLAY_ATTEMPTS {
        PlayStep::WaitThenRetry { next_attempt: attempt + 1 }
    } else {
        PlayStep::WaitThenFail
    }
}

/// Where a run of attempts starting at `attempt` ends, given the results that the
/// pipeline reports one attempt after the other: the attempt at which it plays, or
/// `None` where it gives up (or the results run out first).
pub open spec fn play_run(attempt: u32, results: Seq<bool>) -> Option<nat>
    decreases results.len(),
{
    if results.len() == 0 || attempt >= PLAY_ATTEMPTS {
        None
    } else {
        match play_step(attempt, results[0]) {
            PlayStep::Playing => Some(attempt as nat),
            PlayStep::WaitThenRetry { next_attempt } => play_run(next_attempt, results.drop_first()),
            PlayStep::WaitThenFail => None,
        }
    }
}

/// The index of the first `true` among the first `n` results, if any.
pub open spec fn first_success(results: Seq<bool>, n: nat) -> Option<nat>
    decreases n,
{
    if n == 0 {
        None
    } else {
        match first_success(results, (n - 1) as nat) {
            Some(i) => Some(i),
            None => if (n - 1) < results.len() && results[n - 1] {
                Some((n - 1) as nat)
            } else {
                None
            },
        }
    }
}

proof fn lemma_first_success_shift(results: Seq<bool>, n: nat)
    requires
        results.len() > 0,
        !results[0],
        n >= 1,
    ensures
        first_success(results, n) == (match first_success(results.drop_first(), (n - 1) as nat) {
            Some(i) => Some((i + 1) as nat),
            None => None::<nat>,
        }),
    decreases n,
{
    assert(first_success(results, 0) is None);
    assert(first_success(results.drop_first(), 0) is None);
    if n > 1 {
        lemma_first_success_shift(results, (n - 1) as nat);
        if n - 2 < results.drop_first().len() {
            assert(results.drop_first()[n - 2] == results[n - 1]);
        }
    }
}

proof fn lemma_play_run(attempt: u32, results: Seq<bool>)
    requires
        attempt <= PLAY_ATTEMPTS,
    ensures
        play_run(attempt, results) == (match first_success(results, (PLAY_ATTEMPTS - attempt) as nat) {
            Some(i) => Some((i + attempt) as nat),
            None => None::<nat>,
        }),
    decreases results.len(),
{
    let n = (PLAY_ATTEMPTS - attempt) as nat;
    if results.len() == 0 {
        assert(first_success(results, n) is None) by {
            lemma_first_success_empty(results, n);
        }
    } else if attempt >= PLAY_ATTEMPTS {
    } else if results[0] {
        lemma_first_success_head(results, n);
    } else {
        lemma_first_success_shift(results, n);
        if attempt + 1 < PLAY_ATTEMPTS {
            lemma_play_run((attempt + 1) as u32, results.drop_first());
        }
    }
}

proof fn lemma_first_success_empty(results: Seq<bool>, n: nat)
    requires
        results.len() == 0,
    ensures
        first_success(results, n) is None,
    decreases n,
{
    if n > 0 {
        lemma_first_success_empty(results, (n - 1) as nat);
    }
}

proof fn lemma_first_success_head(results: Seq<bool>, n: nat)
    requires
        results.len() > 0,
        results[0],
        n >= 1,
    ensures
        first_success(results, n) == Some(0nat),
    decreases n,
{
    assert(first_success(results, 0) is None);
    if n > 1 {
        lemma_first_success_head(results, (n - 1) as nat);
    }
}

/// Starting from the first attempt, the pipeline is asked to play at most
/// `PLAY_ATTEMPTS` times: the run ends playing at the first attempt that
/// succeeds among the first `PLAY_ATTEMPTS`, and gives up when all of those fail.
pub proof fn play_retries_are_bounded(results: Seq<bool>)
    ensures
        play_run(0, results) == first_success(results, PLAY_ATTEMPTS as nat),
        play_run(0, results) matches Some(i) ==> i < PLAY_ATTEMPTS && results[i as int],
{
    lemma_play_run(0, results);
    lemma_first_success_sound(results, PLAY_ATTEMPTS as nat);
}

proof fn lemma_first_success_sound(results: Seq<bool>, n: nat)
    ensures
        first_success(results, n) matches Some(i) ==> i < n && i < results.len() && results[i as int],
    decreases n,
{
    if n > 0 {
        lemma_first_success_sound(results, (n - 1) as nat);
    }
}

/// What becomes of one encoded sample that the sink offers.
#[derive(Debug, Clone, Copy, PartialEq, Eq, Structural)]
pub enum SampleVerdict {
    /// The packet went out on the track.
    Sent,
    /// No sample could be pulled: the stream has ended.
    EndOfStream,
    /// The sample could not be read or sent.
    Failed,
}

/// The verdict on a sample, given how far handling it got: pulled from the sink,
/// found to hold a buffer, mapped readable, written to the track.
pub open spec fn sample_verdict_of(pulled: bool, has_buffer: bool, mapped: bool, written: bool) -> SampleVerdict {
    if !pulled {
        SampleVerdict::EndOfStream
    } else if has_buffer && mapped && written {
        SampleVerdict::Sent
    } else {
        SampleVerdict::Failed
    }
}

/// A sample is sent exactly when every stage of handling it succeeded; the
/// stream has ended exactly when no sample could be pulled; any other failure
/// fails the sample.
pub proof fn sample_verdict_law(pulled: bool, has_buffer: bool, mapped: bool, written: bool)
    ensures
        sample_verdict_of(pulled, has_buffer, mapped, written) == SampleVerdict::Sent
            <==> (pulled && has_buffer && mapped && written),
        sample_verdict_of(pulled, has_buffer, mapped, written) == SampleVerdict::EndOfStream <==> !pulled,
        sample_verdict_of(pulled, has_buffer, mapped, written) == SampleVerdict::Failed
            <==> (pulled && !(has_buffer && mapped && written)),
{
}

/// Decides what becomes of a sample, given how far handling it got.
pub fn sample_verdict(pulled: bool, has_buffer: bool, mapped: bool, written: bool) -> (res: SampleVerdict)
    ensures
        res == sample_verdict_of(pulled, has_buffer, mapped, written),
{
    if !pulled {
        SampleVerdict::EndOfStream
    } else if has_buffer && mapped && written {
        SampleVerdict::Sent
    } else {
        SampleVerdict::Failed
    }
}

/// Why no answer could be given to a viewer's offer.
#[derive(Debug, Clone, Copy, PartialEq, Eq, Structural)]
pub enum SessionError {
    /// The peer connection has no local description after gathering.
    NoLocalDescription,
}

impl SessionError {
    /// A short description of the error.
    pub fn message(&self) -> (res: &'static str)
        ensures
            res@ == "generate local_description failed!"@,
    {
        "generate local_description failed!"
    }
}

/// The answer sent back to a viewer: the server's local session description
/// (as JSON) encoded in Base64, or an error where there is none.
pub fn encode_answer(local_description: Option<String>) -> (res: Result<String, SessionError>)
    requires
        local_description matches Some(j) ==> encodable_len(encode_utf8(j@).len()),
    ensures
        match local_description {
            Some(j) => res matches Ok(a) && a@ == encoded_text(j@)
                && decoded_text(a@) == Ok::<Seq<char>, TextDecodeError>(j@),
            None => res == Err::<String, SessionError>(SessionError::NoLocalDescription),
        },
{
    match local_description {
        Some(json) => {
            Ok(encode(json.as_str()))
        },
        None => Err(SessionError::NoLocalDescription),
    }
}

} // verus!
