use vstd::prelude::*;

use crate::decoder::{decode, fields_of, lossy_text, LogFields};
use crate::error::LogError;

verus! {

/// Where the ingestion daemon stands.
#[derive(Debug, Clone, Copy, PartialEq, Eq, Structural)]
pub enum Phase {
    /// The local channel is not bound yet.
    Starting,
    /// The channel is bound and messages are taken in.
    Listening,
    /// Binding failed; the daemon ends.
    Stopped,
}

/// What the surrounding loop reports to the daemon.
pub enum Event {
    /// The local channel was bound.
    Bound,
    /// Binding the local channel failed.
    BindFailed,
    /// A payload was received.
    Datagram(Vec<u8>),
    /// Receiving failed at the transport level.
    ReceiveFailed,
    /// The last insert stored a row with this id.
    Written(i64),
    /// The last insert was rejected.
    WriteFailed,
    /// The last failure was reported on the diagnostic stream.
    Reported,
}

/// What the daemon asks the surrounding loop to do next.
pub enum Action {
    /// Bind the local channel.
    Bind,
    /// Wait for the next payload.
    Receive,
    /// Store these fields as one row.
    Insert(LogFields),
    /// Report this failure on the diagnostic stream.
    Report(LogError),
    /// End the process with this failure.
    Exit(LogError),
}

/// The mathematical form of an [`Event`].
pub enum EventSpec {
    Bound,
    BindFailed,
    Datagram(Seq<u8>),
    ReceiveFailed,
    Written(i64),
    WriteFailed,
    Reported,
}

/// The mathematical form of an [`Action`].
pub enum ActionSpec {
    Bind,
    Receive,
    Insert((Seq<char>, Seq<char>, Seq<char>)),
    Report(LogError),
    Exit(LogError),
}

impl View for Event {
    type V = EventSpec;

    open spec fn view(&self) -> EventSpec {
        match self {
            Event::Bound => EventSpec::Bound,
            Event::BindFailed => EventSpec::BindFailed,
            Event::Datagram(p) => EventSpec::Datagram(p@),
            Event::ReceiveFailed => EventSpec::ReceiveFailed,
            Event::Written(id) => EventSpec::Written(*id),
            Event::WriteFailed => EventSpec::WriteFailed,
            Event::Reported => EventSpec::Reported,
        }
    }
}

impl View for Action {
    type V = ActionSpec;

    open spec fn view(&self) -> ActionSpec {
        match self {
            Action::Bind => ActionSpec::Bind,
            Action::Receive => ActionSpec::Receive,
            Action::Insert(f) => ActionSpec::Insert(f@),
            Action::Report(e) => ActionSpec::Report(*e),
            Action::Exit(e) => ActionSpec::Exit(*e),
        }
    }
}

/// The daemon's transition: from a phase and an event, the next phase and the
/// action to take. Only a failure to bind ends it; a received payload is always
/// decoded and stored, and failures to receive or to write are reported and
/// followed by the next receive.
pub open spec fn transition(p: Phase, e: EventSpec) -> (Phase, ActionSpec) {
    match p {
        Phase::Starting => match e {
            EventSpec::Bound => (Phase::Listening, ActionSpec::Receive),
            EventSpec::BindFailed => (Phase::Stopped, ActionSpec::Exit(LogError::BindFailure)),
            _ => (Phase::Starting, ActionSpec::Bind),
        },
        Phase::Listening => match e {
            EventSpec::Datagram(b) => (Phase::Listening, ActionSpec::Insert(fields_of(lossy_text(b)))),
            EventSpec::ReceiveFailed => (Phase::Listening, ActionSpec::Report(LogError::TransportError)),
            EventSpec::WriteFailed => (Phase::Listening, ActionSpec::Report(LogError::WriteFailed)),
            _ => (Phase::Listening, ActionSpec::Receive),
        },
        Phase::Stopped => (Phase::Stopped, ActionSpec::Exit(LogError::BindFailure)),
    }
}

/// The decision logic of the ingestion daemon.
pub struct Daemon {
    pub phase: Phase,
}

impl Daemon {
    /// A daemon that has yet to bind its channel.
    pub fn new() -> (r: Daemon)
        ensures
            r.phase == Phase::Starting,
    {
        Daemon { phase: Phase::Starting }
    }

    /// The first action: bind the channel.
    pub fn start(&self) -> (r: Action)
        ensures
            r@ == ActionSpec::Bind,
    {
        Action::Bind
    }

    /// Takes one event and gives the next action.
    pub fn step(&mut self, e: Event) -> (r: Action)
        ensures
            (final(self).phase, r@) == transition(old(self).phase, e@),
    {
        match self.phase {
            Phase::Starting => match e {
                Event::Bound => {
                    self.phase = Phase::Listening;
                    Action::Receive
                },
                Event::BindFailed => {
                    self.phase = Phase::Stopped;
                    Action::Exit(LogError::BindFailure)
                },
                _ => Action::Bind,
            },
            Phase::Listening => match e {
                Event::Datagram(b) => Action::Insert(decode(b.as_slice())),
                Event::ReceiveFailed => Action::Report(LogError::TransportError),
                Event::WriteFailed => Action::Report(LogError::WriteFailed),
                _ => Action::Receive,
            },
            Phase::Stopped => Action::Exit(LogError::BindFailure),
        }
    }
}

/// Once listening, the daemon keeps listening, whatever happens.
pub proof fn lemma_listening_never_stops(e: EventSpec)
    ensures
        transition(Phase::Listening, e).0 == Phase::Listening,
        !(transition(Phase::Listening, e).1 is Exit),
{
}

/// A failed write costs only the message in flight: it is reported, the daemon
/// goes on receiving, and the next payload is decoded and stored.
pub proof fn lemma_write_failure_isolated(b: Seq<u8>)
    ensures
        transition(Phase::Listening, EventSpec::WriteFailed) == (Phase::Listening, ActionSpec::Report(
            LogError::WriteFailed,
        )),
        transition(Phase::Listening, EventSpec::Reported) == (Phase::Listening, ActionSpec::Receive),
        transition(Phase::Listening, EventSpec::Datagram(b)) == (Phase::Listening, ActionSpec::Insert(
            fields_of(lossy_text(b)),
        )),
{
}

/// A failed receive is reported and followed by the next receive.
pub proof fn lemma_receive_failure_isolated()
    ensures
        transition(Phase::Listening, EventSpec::ReceiveFailed) == (Phase::Listening, ActionSpec::Report(
            LogError::TransportError,
        )),
        transition(Phase::Listening, EventSpec::Reported) == (Phase::Listening, ActionSpec::Receive),
{
}

} // verus!
