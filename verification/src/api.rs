use vstd::prelude::*;
use crate::sources::{Sources, SourcesStep, apply_step, fresh_source, stop_at};

verus! {

/// A viewer's session description and the source it wants; the server answers
/// with its own description for the same source.
pub struct SessionOffer {
    pub session_description: String,
    pub id: usize,
}

/// A request to add an RTSP source.
pub struct NewSource {
    pub url: String,
    pub token: String,
}

/// A request to stop a source.
pub struct StopSource {
    pub id: usize,
    pub token: String,
}

/// Why a request was refused.
#[derive(Debug, Clone, Copy, PartialEq, Eq, Structural)]
pub enum RouteError {
    /// The request's token is not the admin token.
    WrongToken,
    /// The source asked for does not stream.
    InactiveSource,
    /// No session could be set up with the viewer.
    PeerConnection,
}

/// The text with which each refusal is reported.
pub open spec fn route_error_message(e: RouteError) -> Seq<char> {
    match e {
        RouteError::WrongToken => "token is wrong"@,
        RouteError::InactiveSource => "this source isn't active"@,
        RouteError::PeerConnection => "error when try to connect to peer"@,
    }
}

impl RouteError {
    /// The text with which this refusal is reported.
    pub fn message(&self) -> (res: &'static str)
        ensures
            res@ == route_error_message(*self),
    {
        match self {
            RouteError::WrongToken => "token is wrong",
            RouteError::InactiveSource => "this source isn't active",
            RouteError::PeerConnection => "error when try to connect to peer",
        }
    }
}

/// How an authorized request to add a source ended.
#[derive(Debug, Clone, Copy, PartialEq, Eq, Structural)]
pub enum AddOutcome {
    /// A pipeline was set up and the source was added.
    Done,
    /// No pipeline could be set up; nothing was added.
    NotDone,
}

/// The reply text of each outcome of adding a source.
pub open spec fn add_outcome_message(o: AddOutcome) -> Seq<char> {
    match o {
        AddOutcome::Done => "Done"@,
        AddOutcome::NotDone => "Not Done"@,
    }
}

impl AddOutcome {
    /// The reply text of this outcome.
    pub fn message(&self) -> (res: &'static str)
        ensures
            res@ == add_outcome_message(*self),
    {
        match self {
            AddOutcome::Done => "Done",
            AddOutcome::NotDone => "Not Done",
        }
    }
}

/// How an authorized request to stop a source ended.
#[derive(Debug, Clone, Copy, PartialEq, Eq, Structural)]
pub enum StopOutcome {
    /// The source streamed and is now stopped: its pipeline must be sent end-of-stream.
    Stopped,
    /// The source had been stopped before; nothing changed.
    AlreadyStopped,
}

/// The reply text of each outcome of stopping a source.
pub open spec fn stop_outcome_message(o: StopOutcome) -> Seq<char> {
    match o {
        StopOutcome::Stopped => "Done"@,
        StopOutcome::AlreadyStopped => "It's already was stoped"@,
    }
}

impl StopOutcome {
    /// The reply text of this outcome.
    pub fn message(&self) -> (res: &'static str)
        ensures
            res@ == stop_outcome_message(*self),
    {
        match self {
            StopOutcome::Stopped => "Done",
            StopOutcome::AlreadyStopped => "It's already was stoped",
        }
    }
}

/// Admits a request only when its token is the admin token.
pub fn authorize(admin_token: &String, token: &String) -> (res: Result<(), RouteError>)
    ensures
        res is Ok <==> admin_token@ == token@,
        res is Err ==> res == Err::<(), RouteError>(RouteError::WrongToken),
{
    if *admin_token == *token {
        Ok(())
    } else {
        Err(RouteError::WrongToken)
    }
}

/// The answer to a viewer once the session was (or was not) set up: the server's
/// session description for the same source, or a refusal.
pub fn view_response(id: usize, answer: Option<String>) -> (res: Result<SessionOffer, RouteError>)
    ensures
        match answer {
            Some(d) => res matches Ok(o) && o.id == id && o.session_description@ == d@,
            None => res == Err::<SessionOffer, RouteError>(RouteError::PeerConnection),
        },
{
    match answer {
        Some(session_description) => Ok(SessionOffer { session_description, id }),
        None => Err(RouteError::PeerConnection),
    }
}

impl<T, P> Sources<T, P> {
    /// Ends an authorized request to add `url`: where a track and its pipeline
    /// were set up, the source is appended, streaming; otherwise nothing changes.
    pub fn record_new_track(&mut self, url: String, created: Option<(T, P)>) -> (res: AddOutcome)
        ensures
            match created {
                Some((track, pipe)) => res == AddOutcome::Done
                    && final(self)@ == old(self)@.push(fresh_source(url, track, pipe))
                    && final(self)@ == apply_step(old(self)@, SourcesStep::Add(fresh_source(url, track, pipe))),
                None => res == AddOutcome::NotDone && final(self)@ == old(self)@,
            },
    {
        match created {
            Some((track, pipe)) => {
                self.add(url, track, pipe);
                AddOutcome::Done
            },
            None => AddOutcome::NotDone,
        }
    }

    /// Stops the source at `id` if it streams.
    pub fn stop_source(&mut self, id: usize) -> (res: StopOutcome)
        requires
            id < old(self)@.len(),
        ensures
            old(self)@[id as int].state ==> res == StopOutcome::Stopped
                && final(self)@ == stop_at(old(self)@, id as int),
            !old(self)@[id as int].state ==> res == StopOutcome::AlreadyStopped
                && final(self)@ == old(self)@,
            final(self)@ == apply_step(old(self)@, SourcesStep::Stop(id)),
            !final(self)@[id as int].state,
            final(self)@[id as int].url == old(self)@[id as int].url,
    {
        if self.list[id].state {
            self.list[id].stop();
            proof {
                assert(self@ =~= stop_at(old(self)@, id as int));
            }
            StopOutcome::Stopped
        } else {
            proof {
                assert(stop_at(self@, id as int) =~= self@);
            }
            StopOutcome::AlreadyStopped
        }
    }

    /// A request to stop a source: refused with `WrongToken` (and nothing changed)
    /// unless its token is the admin token; then the source at its id is stopped.
    pub fn stop_request(&mut self, admin_token: &String, req: &StopSource) -> (res: Result<StopOutcome, RouteError>)
        requires
            admin_token@ == req.token@ ==> req.id < old(self)@.len(),
        ensures
            admin_token@ != req.token@ ==> res == Err::<StopOutcome, RouteError>(RouteError::WrongToken)
                && final(self)@ == old(self)@,
            admin_token@ == req.token@ && old(self)@[req.id as int].state ==>
                res == Ok::<StopOutcome, RouteError>(StopOutcome::Stopped)
                && final(self)@ == stop_at(old(self)@, req.id as int),
            admin_token@ == req.token@ && !old(self)@[req.id as int].state ==>
                res == Ok::<StopOutcome, RouteError>(StopOutcome::AlreadyStopped)
                && final(self)@ == old(self)@,
            admin_token@ == req.token@ ==> final(self)@ == apply_step(old(self)@, SourcesStep::Stop(req.id)),
    {
        match authorize(admin_token, &req.token) {
            Err(e) => Err(e),
            Ok(()) => Ok(self.stop_source(req.id)),
        }
    }

    /// The track of the source at `id` for a viewer; refused with
    /// `InactiveSource` when that source does not stream.
    pub fn connect_request(&self, id: usize) -> (res: Result<&T, RouteError>)
        requires
            id < self@.len(),
        ensures
            self@[id as int].state ==> (res matches Ok(t) && *t == self@[id as int].track),
            !self@[id as int].state ==> res == Err::<&T, RouteError>(RouteError::InactiveSource),
    {
        match self.list[id].connect() {
            Ok(t) => Ok(t),
            Err(_) => Err(RouteError::InactiveSource),
        }
    }
}

} // verus!
