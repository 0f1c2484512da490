//! The tail loop: the one stateful part of the protocol.
//!
//! The loop is a machine that is driven from outside. It is handed one
//! [`Event`] at a time, the answer to what it asked for last, and names the
//! next [`Action`] to perform. It performs nothing itself, so one request is
//! in flight at a time and every step of a run can be reasoned about.
//!
//! A run goes: [`Event::Started`], the range-support probe, the first length
//! probe, and then rounds of (fetch and deliver, where the resource has
//! grown past the offset), sleep, length probe. It ends when the server
//! serves no ranges, when the sink asks to stop, or with the first failure
//! of the transport.
//!
//! A length probe that reports less than the offset changes the stored
//! length and nothing else: the offset stays where it is, and nothing is
//! fetched until the resource has grown past it again.

use crate::error::TransportError;
use crate::options::{initial_offset, initial_offset_of, TailOptions};
use vstd::prelude::*;
use vstd::string::*;

verus! {

/// The pause between two polls where none is configured, in milliseconds.
pub const DEFAULT_POLL_INTERVAL_MS: u64 = 1000;

/// What is known of the resource while it is followed.
#[derive(Clone, Copy, Debug, PartialEq, Eq)]
pub struct ResourceState {
    /// The total size in bytes that the last length probe reported.
    pub length: u64,
    /// The number of bytes that have been delivered or passed over.
    pub offset: u64,
}

/// The states of the tail loop.
#[derive(Clone, Copy, Debug, PartialEq, Eq)]
pub enum Phase {
    /// Nothing has been asked of the transport.
    Init,
    /// Finding out whether the resource can be followed, and from where.
    CheckingCapability,
    /// Between fetches: pausing, or asking for the length.
    Polling,
    /// A range is being fetched or handed to the sink.
    Fetching,
    /// The run is over.
    Terminated,
}

/// The answer that the loop waits for.
#[derive(Clone, Copy, Debug, PartialEq, Eq)]
pub enum Pending {
    /// The word to begin.
    Start,
    /// Whether the server serves byte ranges.
    RangeSupport,
    /// The length of the resource, for the first time.
    InitialLength,
    /// The text of the range that was asked for.
    Body,
    /// The sink's word on whether to go on.
    Delivery,
    /// The end of the pause.
    Pause,
    /// The length of the resource, after a pause.
    Length,
    /// Nothing: the run is over.
    Nothing,
}

/// How a run ended.
#[derive(Debug, PartialEq, Eq)]
pub enum Outcome {
    /// The server serves no byte ranges, so there is nothing to follow.
    Unsupported,
    /// The sink asked to stop.
    Stopped,
    /// A transport operation failed.
    Failed(TransportError),
    /// The loop was handed an event that answers nothing it had asked for.
    OutOfTurn,
}

/// What the loop is told.
#[derive(Debug, PartialEq, Eq)]
pub enum Event {
    /// The run begins.
    Started,
    /// The range-support probe has returned.
    RangeSupport(Result<bool, TransportError>),
    /// A length probe has returned.
    Length(Result<u64, TransportError>),
    /// A ranged fetch has returned.
    Body(Result<String, TransportError>),
    /// The sink has taken a text. `false` asks the loop to stop.
    Delivered(bool),
    /// The pause is over.
    Slept,
}

/// What the loop asks for.
#[derive(Debug, PartialEq, Eq)]
pub enum Action {
    /// Ask whether the server serves byte ranges.
    ProbeRangeSupport,
    /// Ask for the current length of the resource.
    ProbeLength,
    /// Fetch the bytes from `offset` up to, not including, `length`.
    Fetch { offset: u64, length: u64 },
    /// Hand this text to the sink, whole and as it is.
    Deliver(String),
    /// Pause for this many milliseconds.
    Sleep(u64),
    /// Stop: the run has ended in this way.
    Finish(Outcome),
}

/// The tail loop between two steps.
#[derive(Clone, Copy, Debug, PartialEq, Eq)]
pub struct TailLoop {
    /// Where the tail begins.
    pub options: TailOptions,
    /// The pause between two polls, in milliseconds.
    pub poll_interval_ms: u64,
    /// What is known of the resource.
    pub resource: ResourceState,
    /// The answer that the loop waits for.
    pub pending: Pending,
}

impl Pending {
    /// The state of the loop while it waits for this answer.
    pub open spec fn phase_of(self) -> Phase {
        match self {
            Pending::Start => Phase::Init,
            Pending::RangeSupport | Pending::InitialLength => Phase::CheckingCapability,
            Pending::Body | Pending::Delivery => Phase::Fetching,
            Pending::Pause | Pending::Length => Phase::Polling,
            Pending::Nothing => Phase::Terminated,
        }
    }
}

impl Outcome {
    /// Whether a run that ended in this way counts as a success.
    pub open spec fn success(self) -> bool {
        self is Unsupported || self is Stopped
    }

    /// What a user is told of a run that ended in this way, if anything.
    pub open spec fn notice_of(self) -> Option<Seq<char>> {
        match self {
            Outcome::Unsupported => Some("Http Range not supported by server, sorry!"@),
            Outcome::Stopped => None,
            Outcome::Failed(error) => Some(error.message_of()),
            Outcome::OutOfTurn => Some("The tail loop was handed an event out of turn"@),
        }
    }

    /// Tells whether a run that ended in this way counts as a success: it
    /// does where the server serves no ranges and where the sink asked to
    /// stop.
    pub fn is_success(&self) -> (yes: bool)
        ensures
            yes == self.success(),
    {
        match self {
            Outcome::Unsupported => true,
            Outcome::Stopped => true,
            Outcome::Failed(_) => false,
            Outcome::OutOfTurn => false,
        }
    }

    /// Writes what a user is told of a run that ended in this way. A run
    /// that the sink stopped ends without a word.
    pub fn notice(&self) -> (text: Option<String>)
        ensures
            text.deep_view() == self.notice_of(),
    {
        match self {
            Outcome::Unsupported => Some(
                String::from_str("Http Range not supported by server, sorry!"),
            ),
            Outcome::Stopped => None,
            Outcome::Failed(error) => Some(error.message()),
            Outcome::OutOfTurn => Some(
                String::from_str("The tail loop was handed an event out of turn"),
            ),
        }
    }
}

impl TailLoop {
    /// Until the length is known no byte counts as delivered, and while a
    /// range is fetched or delivered it is not empty.
    pub open spec fn wf(self) -> bool {
        &&& self.pending.phase_of() is Init || self.pending.phase_of() is CheckingCapability
            ==> self.resource.offset == 0
        &&& self.pending.phase_of() is Fetching ==> self.resource.offset < self.resource.length
    }

    /// The loop before its run, with a given pause between polls.
    pub open spec fn initial(options: TailOptions, poll_interval_ms: u64) -> TailLoop {
        TailLoop {
            options,
            poll_interval_ms,
            resource: ResourceState { length: 0, offset: 0 },
            pending: Pending::Start,
        }
    }

    /// This loop, waiting for another answer.
    pub open spec fn waiting_for(self, pending: Pending) -> TailLoop {
        TailLoop { pending, ..self }
    }

    /// This loop with other knowledge of the resource.
    pub open spec fn knowing(self, length: u64, offset: u64) -> TailLoop {
        TailLoop { resource: ResourceState { length, offset }, ..self }
    }

    /// One poll: a fetch of all that lies past the offset, or a pause where
    /// nothing does.
    pub open spec fn poll(self) -> (TailLoop, Action) {
        if self.resource.offset < self.resource.length {
            (
                self.waiting_for(Pending::Body),
                Action::Fetch { offset: self.resource.offset, length: self.resource.length },
            )
        } else {
            (self.waiting_for(Pending::Pause), Action::Sleep(self.poll_interval_ms))
        }
    }

    /// The end of the run.
    pub open spec fn finish(self, outcome: Outcome) -> (TailLoop, Action) {
        (self.waiting_for(Pending::Nothing), Action::Finish(outcome))
    }

    /// The loop after `event`, and what it asks for next.
    pub open spec fn next(self, event: Event) -> (TailLoop, Action) {
        match (self.pending, event) {
            (Pending::Start, Event::Started) => (
                self.waiting_for(Pending::RangeSupport),
                Action::ProbeRangeSupport,
            ),
            (Pending::RangeSupport, Event::RangeSupport(Ok(supported))) => if supported {
                (self.waiting_for(Pending::InitialLength), Action::ProbeLength)
            } else {
                self.finish(Outcome::Unsupported)
            },
            (Pending::RangeSupport, Event::RangeSupport(Err(error))) => self.finish(
                Outcome::Failed(error),
            ),
            (Pending::InitialLength, Event::Length(Ok(length))) => self.knowing(
                length,
                initial_offset_of(self.options, length),
            ).poll(),
            (Pending::InitialLength, Event::Length(Err(error))) => self.finish(
                Outcome::Failed(error),
            ),
            (Pending::Body, Event::Body(Ok(text))) => (
                self.waiting_for(Pending::Delivery),
                Action::Deliver(text),
            ),
            (Pending::Body, Event::Body(Err(error))) => self.finish(Outcome::Failed(error)),
            (Pending::Delivery, Event::Delivered(go_on)) => if go_on {
                (
                    self.knowing(self.resource.length, self.resource.length).waiting_for(
                        Pending::Pause,
                    ),
                    Action::Sleep(self.poll_interval_ms),
                )
            } else {
                self.finish(Outcome::Stopped)
            },
            (Pending::Pause, Event::Slept) => (
                self.waiting_for(Pending::Length),
                Action::ProbeLength,
            ),
            (Pending::Length, Event::Length(Ok(length))) => self.knowing(
                length,
                self.resource.offset,
            ).poll(),
            (Pending::Length, Event::Length(Err(error))) => self.finish(Outcome::Failed(error)),
            _ => self.finish(Outcome::OutOfTurn),
        }
    }

    /// Makes a loop that pauses for the default interval between polls.
    pub fn new(options: TailOptions) -> (tail: TailLoop)
        ensures
            tail == TailLoop::initial(options, DEFAULT_POLL_INTERVAL_MS),
            tail.wf(),
    {
        TailLoop::with_poll_interval(options, DEFAULT_POLL_INTERVAL_MS)
    }

    /// Makes a loop that pauses for `poll_interval_ms` between polls.
    pub fn with_poll_interval(options: TailOptions, poll_interval_ms: u64) -> (tail: TailLoop)
        ensures
            tail == TailLoop::initial(options, poll_interval_ms),
            tail.wf(),
    {
        TailLoop {
            options,
            poll_interval_ms,
            resource: ResourceState { length: 0, offset: 0 },
            pending: Pending::Start,
        }
    }

    /// The state that the loop is in.
    pub fn phase(&self) -> (phase: Phase)
        ensures
            phase == self.pending.phase_of(),
    {
        match self.pending {
            Pending::Start => Phase::Init,
            Pending::RangeSupport => Phase::CheckingCapability,
            Pending::InitialLength => Phase::CheckingCapability,
            Pending::Body => Phase::Fetching,
            Pending::Delivery => Phase::Fetching,
            Pending::Pause => Phase::Polling,
            Pending::Length => Phase::Polling,
            Pending::Nothing => Phase::Terminated,
        }
    }

    /// Whether the run is over.
    pub fn is_terminated(&self) -> (over: bool)
        ensures
            over == (self.pending.phase_of() is Terminated),
    {
        match self.pending {
            Pending::Nothing => true,
            _ => false,
        }
    }

    /// Ends the run.
    fn stop(&mut self, outcome: Outcome) -> (action: Action)
        ensures
            (*final(self), action) == old(self).finish(outcome),
    {
        self.pending = Pending::Nothing;
        Action::Finish(outcome)
    }

    /// Polls once with what is known of the resource.
    fn poll_now(&mut self) -> (action: Action)
        ensures
            (*final(self), action) == old(self).poll(),
    {
        if self.resource.offset < self.resource.length {
            self.pending = Pending::Body;
            Action::Fetch { offset: self.resource.offset, length: self.resource.length }
        } else {
            self.pending = Pending::Pause;
            Action::Sleep(self.poll_interval_ms)
        }
    }

    /// Takes the answer to what the loop asked for last, and names what to
    /// do next.
    ///
    /// An event that answers something else, or any event once the run is
    /// over, ends the run as [`Outcome::OutOfTurn`].
    pub fn step(&mut self, event: Event) -> (action: Action)
        ensures
            (*final(self), action) == old(self).next(event),
            old(self).wf() ==> final(self).wf(),
            final(self).options == old(self).options,
            final(self).poll_interval_ms == old(self).poll_interval_ms,
            action is Finish <==> final(self).pending is Nothing,
            action matches Action::Fetch { offset, length } ==> offset < length
                && final(self).resource == (ResourceState { length, offset }),
    {
        match (self.pending, event) {
            (Pending::Start, Event::Started) => {
                self.pending = Pending::RangeSupport;
                Action::ProbeRangeSupport
            },
            (Pending::RangeSupport, Event::RangeSupport(Ok(supported))) => {
                if supported {
                    self.pending = Pending::InitialLength;
                    Action::ProbeLength
                } else {
                    self.stop(Outcome::Unsupported)
                }
            },
            (Pending::RangeSupport, Event::RangeSupport(Err(error))) => self.stop(
                Outcome::Failed(error),
            ),
            (Pending::InitialLength, Event::Length(Ok(length))) => {
                let offset: u64 = initial_offset(&self.options, length);
                self.resource = ResourceState { length, offset };
                self.poll_now()
            },
            (Pending::InitialLength, Event::Length(Err(error))) => self.stop(
                Outcome::Failed(error),
            ),
            (Pending::Body, Event::Body(Ok(text))) => {
                self.pending = Pending::Delivery;
                Action::Deliver(text)
            },
            (Pending::Body, Event::Body(Err(error))) => self.stop(Outcome::Failed(error)),
            (Pending::Delivery, Event::Delivered(go_on)) => {
                if go_on {
                    self.resource.offset = self.resource.length;
                    self.pending = Pending::Pause;
                    Action::Sleep(self.poll_interval_ms)
                } else {
                    self.stop(Outcome::Stopped)
                }
            },
            (Pending::Pause, Event::Slept) => {
                self.pending = Pending::Length;
                Action::ProbeLength
            },
            (Pending::Length, Event::Length(Ok(length))) => {
                self.resource.length = length;
                self.poll_now()
            },
            (Pending::Length, Event::Length(Err(error))) => self.stop(Outcome::Failed(error)),
            _ => self.stop(Outcome::OutOfTurn),
        }
    }
}

} // verus!
