//! The daemon's decisions, one event at a time. The loop that waits on the
//! sockets and talks to the engine reports what happened as an [`Event`];
//! [`Daemon::step`] answers with the [`Action`] to perform next.
use vstd::prelude::*;

use crate::index::candidate_index;
use crate::index::parse_candidate_index;
use crate::keymap::key_code;
use crate::keymap::lemma_symbol_and_code_agree;
use crate::keymap::lemma_underscore_is_empty_key;
use crate::keymap::translate_key;
use crate::keymap::translated;
use crate::response::encode_response;
use crate::response::response_text;
use crate::response::Composition;

verus! {

/// Where the daemon stands in its cycle.
#[derive(PartialEq, Eq, Structural, Clone, Copy, Debug)]
pub enum Phase {
    /// Waiting for a client on the output channel.
    AwaitingOutputConnection,
    /// An output client is held; waiting for the first request on the key,
    /// candidate or backspace channel.
    AwaitingRequest,
    /// The request's operation was handed to the engine; waiting for the
    /// composition it left.
    Dispatching,
    /// The candidate list came back empty and a space was pressed; waiting for
    /// the composition after it.
    Flushing,
}

/// A request read in full from one of the three input channels.
#[derive(Debug)]
pub enum Request {
    /// The payload of the key channel.
    Key(String),
    /// The payload of the candidate channel.
    Candidate(String),
    /// A connection on the backspace channel; its payload is not read.
    Backspace,
}

/// What the event loop reports.
#[derive(Debug)]
pub enum Event {
    /// A client connected on the output channel.
    OutputConnected,
    /// A request arrived on an input channel.
    Requested(Request),
    /// The session's composition, read after the last operation.
    CompositionRead(Composition),
}

/// An operation on the engine session.
#[derive(Debug)]
pub enum EngineOp {
    /// Simulate this key sequence.
    KeySequence(String),
    /// Select the candidate at this zero-based index.
    SelectCandidate(usize),
    /// Delete the last composed unit.
    Backspace,
}

/// Why the daemon stops.
#[derive(PartialEq, Eq, Structural, Clone, Copy, Debug)]
pub enum DaemonError {
    /// A candidate payload that is not an unsigned decimal number.
    MalformedIndex,
    /// An event that the current phase does not wait for.
    UnexpectedEvent,
}

/// What the event loop does next.
#[derive(Debug)]
pub enum Action {
    /// Wait for the first request on the key, candidate and backspace channels.
    AcceptRequest,
    /// Apply this operation to the session, then report its composition.
    Apply(EngineOp),
    /// Write this payload to the held output connection and close it.
    Respond(String),
    /// Stop the daemon with this error.
    Abort(DaemonError),
}

/// The mathematical value of an [`EngineOp`].
pub enum OpModel {
    KeySequence(Seq<char>),
    SelectCandidate(usize),
    Backspace,
}

/// The mathematical value of an [`Action`].
pub enum ActionModel {
    AcceptRequest,
    Apply(OpModel),
    Respond(Seq<char>),
    Abort(DaemonError),
}

impl View for EngineOp {
    type V = OpModel;

    open spec fn view(&self) -> OpModel {
        match self {
            EngineOp::KeySequence(k) => OpModel::KeySequence(k@),
            EngineOp::SelectCandidate(i) => OpModel::SelectCandidate(*i),
            EngineOp::Backspace => OpModel::Backspace,
        }
    }
}

impl View for Action {
    type V = ActionModel;

    open spec fn view(&self) -> ActionModel {
        match self {
            Action::AcceptRequest => ActionModel::AcceptRequest,
            Action::Apply(op) => ActionModel::Apply(op@),
            Action::Respond(p) => ActionModel::Respond(p@),
            Action::Abort(e) => ActionModel::Abort(*e),
        }
    }
}

/// The engine operation a request stands for; `None` for a candidate payload
/// that is not a number.
pub open spec fn request_op(req: Request) -> Option<OpModel> {
    match req {
        Request::Key(p) => Some(OpModel::KeySequence(translated(p@))),
        Request::Candidate(p) => match candidate_index(p@) {
            Some(i) => Some(OpModel::SelectCandidate(i)),
            None => None,
        },
        Request::Backspace => Some(OpModel::Backspace),
    }
}

/// The key sequence pressed when an operation leaves no candidates.
pub open spec fn flush_key() -> Seq<char> {
    seq![' ']
}

/// The next phase and action for an event in a phase.
pub open spec fn transition(phase: Phase, event: Event) -> (Phase, ActionModel) {
    match event {
        Event::OutputConnected => if phase == Phase::AwaitingOutputConnection {
            (Phase::AwaitingRequest, ActionModel::AcceptRequest)
        } else {
            (phase, ActionModel::Abort(DaemonError::UnexpectedEvent))
        },
        Event::Requested(req) => if phase == Phase::AwaitingRequest {
            match request_op(req) {
                Some(op) => (Phase::Dispatching, ActionModel::Apply(op)),
                None => (phase, ActionModel::Abort(DaemonError::MalformedIndex)),
            }
        } else {
            (phase, ActionModel::Abort(DaemonError::UnexpectedEvent))
        },
        Event::CompositionRead(c) => if phase == Phase::Dispatching && c.candidates@.len() == 0 {
            (Phase::Flushing, ActionModel::Apply(OpModel::KeySequence(flush_key())))
        } else if phase == Phase::Dispatching || phase == Phase::Flushing {
            (Phase::AwaitingOutputConnection, ActionModel::Respond(response_text(&c)))
        } else {
            (phase, ActionModel::Abort(DaemonError::UnexpectedEvent))
        },
    }
}

/// The daemon's state between events.
pub struct Daemon {
    pub phase: Phase,
}

impl Daemon {
    /// A daemon that waits for its first output connection.
    pub fn new() -> (r: Daemon)
        ensures
            r.phase == Phase::AwaitingOutputConnection,
    {
        Daemon { phase: Phase::AwaitingOutputConnection }
    }

    /// Turns a request into its engine operation.
    pub fn dispatch(req: Request) -> (r: Result<EngineOp, DaemonError>)
        ensures
            match request_op(req) {
                Some(op) => r matches Ok(o) && o@ == op,
                None => r == Err::<EngineOp, DaemonError>(DaemonError::MalformedIndex),
            },
    {
        match req {
            Request::Key(p) => Ok(EngineOp::KeySequence(String::from_str(translate_key(p.as_str())))),
            Request::Candidate(p) => match parse_candidate_index(p.as_str()) {
                Some(i) => Ok(EngineOp::SelectCandidate(i)),
                None => Err(DaemonError::MalformedIndex),
            },
            Request::Backspace => Ok(EngineOp::Backspace),
        }
    }

    /// Takes one event and says what to do next.
    pub fn step(&mut self, event: Event) -> (r: Action)
        ensures
            (final(self).phase, r@) == transition(old(self).phase, event),
    {
        match event {
            Event::OutputConnected => {
                if self.phase == Phase::AwaitingOutputConnection {
                    self.phase = Phase::AwaitingRequest;
                    Action::AcceptRequest
                } else {
                    Action::Abort(DaemonError::UnexpectedEvent)
                }
            },
            Event::Requested(req) => {
                if self.phase == Phase::AwaitingRequest {
                    match Self::dispatch(req) {
                        Ok(op) => {
                            self.phase = Phase::Dispatching;
                            Action::Apply(op)
                        },
                        Err(e) => Action::Abort(e),
                    }
                } else {
                    Action::Abort(DaemonError::UnexpectedEvent)
                }
            },
            Event::CompositionRead(c) => {
                if self.phase == Phase::Dispatching && c.candidates.len() == 0 {
                    self.phase = Phase::Flushing;
                    let space = String::from_str(" ");
                    proof {
                        reveal_strlit(" ");
                    }
                    assert(space@ =~= flush_key());
                    Action::Apply(EngineOp::KeySequence(space))
                } else if self.phase == Phase::Dispatching || self.phase == Phase::Flushing {
                    self.phase = Phase::AwaitingOutputConnection;
                    Action::Respond(encode_response(&c))
                } else {
                    Action::Abort(DaemonError::UnexpectedEvent)
                }
            },
        }
    }
}

/// A key request with a symbol of the table and one with the symbol's code
/// lead to the same next phase and action.
pub proof fn lemma_symbol_request_matches_code(phase: Phase, symbol: String, code: String)
    requires
        key_code(symbol@) == Some(code@),
    ensures
        transition(phase, Event::Requested(Request::Key(symbol))) == transition(
            phase,
            Event::Requested(Request::Key(code)),
        ),
{
    lemma_symbol_and_code_agree(symbol@);
}

/// A key request for `_` hands the engine the empty key sequence.
pub proof fn lemma_underscore_request(key: String)
    requires
        key@ == seq!['_'],
    ensures
        transition(Phase::AwaitingRequest, Event::Requested(Request::Key(key))) == (
            Phase::Dispatching,
            ActionModel::Apply(OpModel::KeySequence(Seq::empty())),
        ),
{
    lemma_underscore_is_empty_key();
}

/// When an operation leaves no candidates, a space is pressed first, and the
/// response reports the composition read after that press.
pub proof fn lemma_empty_candidates_flushed(emptied: Composition, after: Composition)
    requires
        emptied.candidates@.len() == 0,
    ensures
        transition(Phase::Dispatching, Event::CompositionRead(emptied)) == (
            Phase::Flushing,
            ActionModel::Apply(OpModel::KeySequence(flush_key())),
        ),
        transition(Phase::Flushing, Event::CompositionRead(after)) == (
            Phase::AwaitingOutputConnection,
            ActionModel::Respond(response_text(&after)),
        ),
{
}

/// One request per cycle: once a request is taken, no other is taken until
/// its response is written and a new output client has connected; then the
/// next request is taken and applied as it would have been alone.
pub proof fn lemma_one_request_per_cycle(
    first: Request,
    second: Request,
    later: Request,
    c: Composition,
    out: Composition,
)
    requires
        request_op(first) is Some,
        c.candidates@.len() > 0,
    ensures
        transition(Phase::AwaitingRequest, Event::Requested(first)) == (
            Phase::Dispatching,
            ActionModel::Apply(request_op(first)->0),
        ),
        transition(Phase::Dispatching, Event::Requested(second)) == (
            Phase::Dispatching,
            ActionModel::Abort(DaemonError::UnexpectedEvent),
        ),
        transition(Phase::Dispatching, Event::CompositionRead(c)).0
            == Phase::AwaitingOutputConnection,
        transition(Phase::Flushing, Event::CompositionRead(out)).0
            == Phase::AwaitingOutputConnection,
        transition(Phase::AwaitingOutputConnection, Event::OutputConnected) == (
            Phase::AwaitingRequest,
            ActionModel::AcceptRequest,
        ),
        request_op(later) is Some ==> transition(
            Phase::AwaitingRequest,
            Event::Requested(later),
        ) == (Phase::Dispatching, ActionModel::Apply(request_op(later)->0)),
{
}

} // verus!
