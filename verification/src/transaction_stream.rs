//! The engine for a listing that is paged by time, such as the
//! transactions of one vault account.

use crate::epoch::Epoch;
use crate::page::TimedPage;
use crate::state::{Action, Event, StreamState};
use std::sync::Arc;
use vstd::prelude::*;

verus! {

/// The side of a transfer on which a vault account stands.
#[derive(Clone, Copy, Debug, PartialEq, Eq, Structural)]
pub enum Party {
    /// Transfers that leave the vault account with this id.
    Source(i32),
    /// Transfers that reach the vault account with this id.
    Destination(i32),
}

/// The direction in which a listing is sorted.
#[derive(Clone, Copy, Debug, PartialEq, Eq, Structural)]
pub enum Sort {
    Ascending,
    Descending,
}

/// The instant of a transaction by which a listing is sorted.
#[derive(Clone, Copy, Debug, PartialEq, Eq, Structural)]
pub enum OrderBy {
    CreatedAt,
    LastUpdated,
}

/// What the parameter builder is given for one page of transactions.
#[derive(Clone, Copy, Debug, PartialEq, Eq, Structural)]
pub struct TransactionRequest {
    /// The most items that the page may hold.
    pub limit: u16,
    pub sort: Sort,
    pub order_by: OrderBy,
    /// The page holds nothing that was created before this instant.
    pub after: Epoch,
    /// The vault account whose transfers are listed, and its side in them.
    pub party: Party,
}

/// What a [`TransactionStream`] is told.
pub type TransactionEvent<T, E> = Event<TimedPage<T>, E>;

/// What a [`TransactionStream`] answers.
pub type TransactionAction<T, E> = Action<TransactionRequest, TimedPage<T>, E>;

/// A sequence of pages of transactions, advanced by its consumer.
/// `C` is the transport; the engine keeps a handle to it for its driver
/// and never calls it.
pub struct TransactionStream<C> {
    client: Arc<C>,
    batch: u16,
    state: StreamState,
    vault_id: i32,
    after: Epoch,
    is_source: bool,
}

/// What a [`TransactionStream`] holds.
pub struct TransactionStreamView<C> {
    /// The transport that the pages come from.
    pub client: Arc<C>,
    /// The size asked of every page.
    pub batch: u16,
    pub state: StreamState,
    /// The vault account whose transfers are listed.
    pub vault_id: i32,
    /// The instant from which the next page is asked.
    pub after: Epoch,
    /// Whether the vault account is the source of the transfers listed, or
    /// their destination.
    pub is_source: bool,
}

impl<C> View for TransactionStream<C> {
    type V = TransactionStreamView<C>;

    closed spec fn view(&self) -> TransactionStreamView<C> {
        TransactionStreamView {
            client: self.client,
            batch: self.batch,
            state: self.state,
            vault_id: self.vault_id,
            after: self.after,
            is_source: self.is_source,
        }
    }
}

impl<C> TransactionStreamView<C> {
    /// The side of the transfers on which the vault account stands.
    pub open spec fn party(self) -> Party {
        if self.is_source {
            Party::Source(self.vault_id)
        } else {
            Party::Destination(self.vault_id)
        }
    }

    /// The request for the page that the cursor leads to: the oldest
    /// transactions of the vault account that were created at the cursor
    /// or later, oldest first.
    pub open spec fn request(self) -> TransactionRequest {
        TransactionRequest {
            limit: self.batch,
            sort: Sort::Ascending,
            order_by: OrderBy::CreatedAt,
            after: self.after,
            party: self.party(),
        }
    }

    /// This engine in another state.
    pub open spec fn moved_to(self, state: StreamState) -> Self {
        TransactionStreamView { state, ..self }
    }

    /// This engine once it has been given `page`. An empty page exhausts
    /// it and leaves the cursor where it was; any other page moves the
    /// cursor one millisecond past its last item.
    pub open spec fn turned<T>(self, page: TimedPage<T>) -> Self {
        match page.next_cursor_spec() {
            Some(after) => TransactionStreamView { after, state: StreamState::Idle, ..self },
            None => self.moved_to(StreamState::Exhausted),
        }
    }

    /// Whether the engine can take `event`: a page that it waits for must
    /// lead to a cursor.
    pub open spec fn admits<T, E>(self, event: TransactionEvent<T, E>) -> bool {
        self.state == StreamState::Fetching ==> (event matches Event::Page(page)
            ==> page.advances())
    }

    /// The engine after `event`.
    ///
    /// An event that reports what the engine waits for moves it on. Any
    /// other event leaves it as it is. From `Exhausted` nothing moves it.
    pub open spec fn next<T, E>(self, event: TransactionEvent<T, E>) -> Self {
        match self.state {
            StreamState::Exhausted => self,
            StreamState::Uninitialized | StreamState::Idle => match event {
                Event::Launched => self.moved_to(StreamState::Fetching),
                Event::Rejected(_) => self.moved_to(StreamState::Exhausted),
                _ => self,
            },
            StreamState::Fetching => match event {
                Event::Failed(_) => self.moved_to(StreamState::Exhausted),
                Event::Page(page) => self.turned(page),
                _ => self,
            },
        }
    }

    /// What the engine answers to `event`.
    ///
    /// With no fetch in flight it asks for one, on the request that its
    /// cursor gives; with one in flight it asks to have it polled. A page
    /// that holds items is delivered as it came; an empty page is not
    /// delivered and ends the sequence at once. An error ends the sequence:
    /// a refused request as well as a failed fetch.
    pub open spec fn answer<T, E>(self, event: TransactionEvent<T, E>) -> TransactionAction<T, E> {
        match self.state {
            StreamState::Exhausted => Action::Done,
            StreamState::Uninitialized | StreamState::Idle => match event {
                Event::Launched => Action::Pending,
                Event::Rejected(e) => Action::Fail(e),
                _ => Action::Launch(self.request()),
            },
            StreamState::Fetching => match event {
                Event::NotReady => Action::Pending,
                Event::Failed(e) => Action::Fail(e),
                Event::Page(page) => if page.is_exhausted_spec() {
                    Action::Done
                } else {
                    Action::Deliver(page)
                },
                _ => Action::Poll,
            },
        }
    }
}

impl<C> TransactionStreamView<C> {
    /// The engine after the events of `trace`, taken in their order.
    pub open spec fn run<T, E>(self, trace: Seq<TransactionEvent<T, E>>) -> Self
        decreases trace.len(),
    {
        if trace.len() == 0 {
            self
        } else {
            self.run(trace.drop_last()).next(trace.last())
        }
    }

    /// What the engine answers to the event at place `i` of `trace`, after
    /// the events before it.
    pub open spec fn answer_at<T, E>(
        self,
        trace: Seq<TransactionEvent<T, E>>,
        i: int,
    ) -> TransactionAction<T, E>
        recommends
            0 <= i < trace.len(),
    {
        self.run(trace.take(i)).answer(trace[i])
    }

    /// The number of fetches that are launched in the course of `trace`.
    pub open spec fn launched<T, E>(self, trace: Seq<TransactionEvent<T, E>>) -> nat
        decreases trace.len(),
    {
        if trace.len() == 0 {
            0
        } else {
            let before = self.run(trace.drop_last());
            let one: nat = if before.state.launches(trace.last()) {
                1
            } else {
                0
            };
            self.launched(trace.drop_last()) + one
        }
    }

    /// The number of fetches that resolve in the course of `trace`.
    pub open spec fn resolved<T, E>(self, trace: Seq<TransactionEvent<T, E>>) -> nat
        decreases trace.len(),
    {
        if trace.len() == 0 {
            0
        } else {
            let before = self.run(trace.drop_last());
            let one: nat = if before.state.resolves(trace.last()) {
                1
            } else {
                0
            };
            self.resolved(trace.drop_last()) + one
        }
    }

    /// Whether `event` is in keeping with the request that the engine
    /// made: a page that the engine waits for holds nothing older than the
    /// cursor at its end, and leads to a cursor.
    pub open spec fn honoured_by<T, E>(self, event: TransactionEvent<T, E>) -> bool {
        self.state == StreamState::Fetching ==> (event matches Event::Page(page) ==> (
        page.items@.len() > 0 ==> self.after.millis <= page.last_created_at().millis
            < i64::MAX))
    }
}

impl<C> TransactionStream<C> {
    /// An engine for the transfers that leave a vault account, created at
    /// `after` or later. It has asked for nothing yet.
    pub fn from_source(client: Arc<C>, batch: u16, vault_id: i32, after: Epoch) -> (stream: Self)
        ensures
            stream@ == (TransactionStreamView {
                client,
                batch,
                state: StreamState::Uninitialized,
                vault_id,
                after,
                is_source: true,
            }),
    {
        TransactionStream {
            client,
            batch,
            state: StreamState::Uninitialized,
            vault_id,
            after,
            is_source: true,
        }
    }

    /// An engine for the transfers that reach a vault account, created at
    /// `after` or later. It has asked for nothing yet.
    pub fn from_dest(client: Arc<C>, batch: u16, vault_id: i32, after: Epoch) -> (stream: Self)
        ensures
            stream@ == (TransactionStreamView {
                client,
                batch,
                state: StreamState::Uninitialized,
                vault_id,
                after,
                is_source: false,
            }),
    {
        TransactionStream {
            client,
            batch,
            state: StreamState::Uninitialized,
            vault_id,
            after,
            is_source: false,
        }
    }

    /// The transport that the pages come from.
    pub fn client(&self) -> (client: &Arc<C>)
        ensures
            *client == self@.client,
    {
        &self.client
    }

    /// Where the engine stands.
    pub fn state(&self) -> (state: StreamState)
        ensures
            state == self@.state,
    {
        self.state
    }

    /// The instant from which the next page is asked.
    pub fn after(&self) -> (after: Epoch)
        ensures
            after == self@.after,
    {
        self.after
    }

    /// The request for the page that the cursor leads to.
    pub fn build_params(&self) -> (request: TransactionRequest)
        ensures
            request == self@.request(),
    {
        let party = if self.is_source {
            Party::Source(self.vault_id)
        } else {
            Party::Destination(self.vault_id)
        };
        TransactionRequest {
            limit: self.batch,
            sort: Sort::Ascending,
            order_by: OrderBy::CreatedAt,
            after: self.after,
            party,
        }
    }

    /// Takes one event and answers it.
    ///
    /// The driver starts every advance of the consumer with
    /// [`Event::Advance`], carries out what the engine asks for, reports
    /// the outcome as the next event, and goes on until the answer is one
    /// for the consumer.
    pub fn poll_next<T, E>(&mut self, event: TransactionEvent<T, E>) -> (action: TransactionAction<
        T,
        E,
    >)
        requires
            old(self)@.admits(event),
        ensures
            final(self)@ == old(self)@.next(event),
            action == old(self)@.answer(event),
    {
        match self.state {
            StreamState::Exhausted => Action::Done,
            StreamState::Uninitialized | StreamState::Idle => match event {
                Event::Launched => {
                    self.state = StreamState::Fetching;
                    Action::Pending
                },
                Event::Rejected(e) => {
                    self.state = StreamState::Exhausted;
                    Action::Fail(e)
                },
                _ => Action::Launch(self.build_params()),
            },
            StreamState::Fetching => match event {
                Event::NotReady => Action::Pending,
                Event::Failed(e) => {
                    self.state = StreamState::Exhausted;
                    Action::Fail(e)
                },
                Event::Page(page) => match page.next_cursor() {
                    Some(after) => {
                        self.after = after;
                        self.state = StreamState::Idle;
                        Action::Deliver(page)
                    },
                    None => {
                        self.state = StreamState::Exhausted;
                        Action::Done
                    },
                },
                _ => Action::Poll,
            },
        }
    }
}

} // verus!
