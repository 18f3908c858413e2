//! The vocabulary that an engine and its driver share.
//!
//! An engine does no work of its own. Asked by any event, it answers with an
//! [`Action`]: an instruction to the driver ([`Action::Launch`],
//! [`Action::Poll`]) or what to hand to the consumer ([`Action::Pending`],
//! [`Action::Deliver`], [`Action::Fail`], [`Action::Done`]). The driver
//! carries out an instruction and reports what came of it as the next
//! [`Event`].

use vstd::prelude::*;

verus! {

/// Where an engine stands between two events.
#[derive(Clone, Copy, Debug, PartialEq, Eq, Structural)]
pub enum StreamState {
    /// Nothing has been asked of the remote side yet.
    Uninitialized,
    /// One fetch is in flight.
    Fetching,
    /// No fetch is in flight and the cursor leads to a further page.
    Idle,
    /// The sequence is over. No state follows this one.
    Exhausted,
}

impl StreamState {
    /// The number of fetches that are in flight in this state.
    pub open spec fn in_flight(self) -> nat {
        if self == StreamState::Fetching {
            1
        } else {
            0
        }
    }

    /// Whether an engine in this state waits for a fetch to be launched.
    pub open spec fn awaits_launch(self) -> bool {
        self == StreamState::Uninitialized || self == StreamState::Idle
    }

    /// Whether `event` tells an engine in this state that the fetch which
    /// it waits for was launched.
    pub open spec fn launches<P, E>(self, event: Event<P, E>) -> bool {
        self.awaits_launch() && event is Launched
    }

    /// Whether `event` tells an engine in this state that the fetch in
    /// flight has resolved.
    pub open spec fn resolves<P, E>(self, event: Event<P, E>) -> bool {
        self == StreamState::Fetching && (event is Page || event is Failed)
    }
}

/// What an engine is told. `P` is a page, `E` an error of the parameter
/// builder or of the fetcher.
#[derive(Clone, Debug, PartialEq, Eq)]
pub enum Event<P, E> {
    /// The consumer asks for the next element.
    Advance,
    /// The request was accepted by the parameter builder and exactly one
    /// fetch was launched with it.
    Launched,
    /// The parameter builder refused the request. Nothing was sent.
    Rejected(E),
    /// The fetch in flight has not resolved yet.
    NotReady,
    /// The fetch in flight resolved with a page.
    Page(P),
    /// The fetch in flight resolved with an error.
    Failed(E),
}

/// What an engine answers. `Q` is a request, `P` a page, `E` an error.
#[derive(Clone, Debug, PartialEq, Eq)]
pub enum Action<Q, P, E> {
    /// Build parameters from this request. If the builder accepts them,
    /// launch one fetch and report [`Event::Launched`]; if not, send nothing
    /// and report [`Event::Rejected`].
    Launch(Q),
    /// Poll the fetch in flight and report [`Event::NotReady`],
    /// [`Event::Page`] or [`Event::Failed`].
    Poll,
    /// Tell the consumer that no element is ready yet, and have it ask
    /// again once the fetch can make progress.
    Pending,
    /// Hand this page to the consumer.
    Deliver(P),
    /// Hand this error to the consumer. It is the last element.
    Fail(E),
    /// Tell the consumer that the sequence is over.
    Done,
}

impl<Q: View, P, E> View for Action<Q, P, E> {
    type V = Action<Q::V, P, E>;

    /// The same answer, with the request of a launch taken by its view.
    open spec fn view(&self) -> Action<Q::V, P, E> {
        match *self {
            Action::Launch(q) => Action::Launch(q@),
            Action::Poll => Action::Poll,
            Action::Pending => Action::Pending,
            Action::Deliver(p) => Action::Deliver(p),
            Action::Fail(e) => Action::Fail(e),
            Action::Done => Action::Done,
        }
    }
}

} // verus!
