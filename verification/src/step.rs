//! The protocol between the library and its driver. An operation is a
//! sequence of steps: the driver starts it, the library answers with what is
//! to be done next, the driver does it and comes back with what happened,
//! until the library answers `Done`.
//!
//! An operation keeps no memory of its own between steps: what a step does
//! depends on the client's state, the time and the event alone. The driver
//! holds the client exclusively from the first step to the last, so that no
//! two operations interleave.

use crate::token::{AuthResponse, AuthResponseView};
use crate::wire::{outcome_view, Fault, Reply, Request, RequestView};
use vstd::prelude::*;

verus! {

/// Why a query yielded no value.
#[derive(Clone, Copy, Debug, PartialEq, Eq, Structural)]
pub enum FetchError {
    /// The refresh-token exchange failed.
    AuthFailed,
    /// The content endpoint could not be reached or answered outside the
    /// 2xx class.
    Upstream,
    /// The content endpoint answered 204: nothing is playing.
    NothingPlaying,
    /// The body is not of the expected shape.
    Decode,
    /// A failure a short while ago is still remembered; upstream was not asked.
    SuppressedRecentFailure,
}

/// Why a transport command was not carried out.
#[derive(Clone, Copy, Debug, PartialEq, Eq, Structural)]
pub enum CommandError {
    /// The refresh-token exchange failed.
    AuthFailed,
    /// The player endpoint could not be reached or answered outside the
    /// 2xx class.
    Upstream,
}

/// The error that a query ends in where the reply to its call yields no
/// body.
pub open spec fn fetch_error(fault: Fault) -> FetchError {
    match fault {
        Fault::Transport | Fault::Status => FetchError::Upstream,
        Fault::NoContent => FetchError::NothingPlaying,
        Fault::Decode => FetchError::Decode,
    }
}

impl FetchError {
    /// The error that a query ends in where the reply to its call yields no
    /// body.
    pub fn from_fault(fault: Fault) -> (error: FetchError)
        ensures
            error == fetch_error(fault),
    {
        match fault {
            Fault::Transport | Fault::Status => FetchError::Upstream,
            Fault::NoContent => FetchError::NothingPlaying,
            Fault::Decode => FetchError::Decode,
        }
    }
}

/// What the driver reports to an operation.
#[derive(Debug, PartialEq, Eq)]
pub enum Event<B> {
    /// The operation begins.
    Start,
    /// The refresh-token exchange that the last step asked for has ended.
    Exchanged(Reply<AuthResponse>),
    /// The upstream call that the last step asked for has ended.
    Called(Reply<B>),
}

/// The view of an event.
pub enum EventView<V> {
    Start,
    Exchanged(Reply<AuthResponseView>),
    Called(Reply<V>),
}

impl<B: DeepView> DeepView for Event<B> {
    type V = EventView<B::V>;

    open spec fn deep_view(&self) -> EventView<B::V> {
        match self {
            Event::Start => EventView::Start,
            Event::Exchanged(reply) => EventView::Exchanged(reply.deep_view()),
            Event::Called(reply) => EventView::Called(reply.deep_view()),
        }
    }
}

/// What an operation asks of the driver.
#[derive(Debug, PartialEq, Eq)]
pub enum Step<T, E> {
    /// The operation has ended with this outcome. Nothing is to be sent.
    Done(Result<T, E>),
    /// Send this refresh-token exchange and report `Event::Exchanged`.
    Exchange(Request),
    /// Send this upstream call and report `Event::Called`.
    Call(Request),
}

/// The view of a step.
pub enum StepView<V, E> {
    Done(Result<V, E>),
    Exchange(RequestView),
    Call(RequestView),
}

impl<V, E> StepView<V, E> {
    /// Whether the step sends anything upstream.
    pub open spec fn contacts_upstream(self) -> bool {
        self is Exchange || self is Call
    }
}

impl<T: DeepView, E> DeepView for Step<T, E> {
    type V = StepView<T::V, E>;

    open spec fn deep_view(&self) -> StepView<T::V, E> {
        match self {
            Step::Done(outcome) => StepView::Done(outcome_view(*outcome)),
            Step::Exchange(request) => StepView::Exchange(request@),
            Step::Call(request) => StepView::Call(request@),
        }
    }
}

/// What came of a step that was taken at the machine's own time: the time
/// that the clock showed, and the step's result. There is no result where
/// the clock or the event held a number with which the step's arithmetic
/// would leave the range of `i64`; nothing was changed then.
#[derive(Debug, PartialEq, Eq)]
pub struct Timed<S> {
    pub at: i64,
    pub result: Option<S>,
}

} // verus!
