//! The engine for a listing that is paged by a token of the remote side,
//! such as a collection of vault accounts.

use crate::page::{token_view, TokenPage};
use crate::state::{Action, Event, StreamState};
use std::sync::Arc;
use vstd::prelude::*;

verus! {

/// What the parameter builder is given for one page of vault accounts.
#[derive(Clone, Debug, PartialEq, Eq)]
pub struct VaultRequest {
    /// The most items that the page may hold.
    pub limit: u16,
    /// The token of the page; empty for the first page.
    pub after: String,
}

/// A [`VaultRequest`] with its token as a sequence of characters.
pub struct VaultRequestView {
    pub limit: u16,
    pub after: Seq<char>,
}

impl View for VaultRequest {
    type V = VaultRequestView;

    open spec fn view(&self) -> VaultRequestView {
        VaultRequestView { limit: self.limit, after: self.after@ }
    }
}

/// What a [`VaultStream`] is told.
pub type VaultEvent<T, E> = Event<TokenPage<T>, E>;

/// What a [`VaultStream`] answers.
pub type VaultAction<T, E> = Action<VaultRequest, TokenPage<T>, E>;

/// A [`VaultAction`] with its request as a [`VaultRequestView`].
pub type VaultAnswer<T, E> = Action<VaultRequestView, TokenPage<T>, E>;

/// A sequence of pages of vault accounts, advanced by its consumer.
/// `C` is the transport; the engine keeps a handle to it for its driver
/// and never calls it.
pub struct VaultStream<C> {
    client: Arc<C>,
    batch: u16,
    after: Option<String>,
    state: StreamState,
}

/// What a [`VaultStream`] holds.
pub struct VaultStreamView<C> {
    /// The transport that the pages come from.
    pub client: Arc<C>,
    /// The size asked of every page.
    pub batch: u16,
    /// The token of the page that is fetched next, once one page has named
    /// it.
    pub after: Option<Seq<char>>,
    pub state: StreamState,
}

impl<C> View for VaultStream<C> {
    type V = VaultStreamView<C>;

    closed spec fn view(&self) -> VaultStreamView<C> {
        VaultStreamView {
            client: self.client,
            batch: self.batch,
            after: token_view(self.after),
            state: self.state,
        }
    }
}

impl<C> VaultStreamView<C> {
    /// The request for the page that the cursor leads to. Before the first
    /// page the token is empty.
    pub open spec fn request(self) -> VaultRequestView {
        VaultRequestView {
            limit: self.batch,
            after: match self.after {
                Some(token) => token,
                None => Seq::empty(),
            },
        }
    }

    /// This engine in another state.
    pub open spec fn moved_to(self, state: StreamState) -> Self {
        VaultStreamView { state, ..self }
    }

    /// This engine once it has been given `page`: its cursor is the token
    /// of the page, and it is exhausted if the page names none.
    pub open spec fn turned<T>(self, page: TokenPage<T>) -> Self {
        VaultStreamView {
            after: page.next_cursor_spec(),
            state: if page.is_exhausted_spec() {
                StreamState::Exhausted
            } else {
                StreamState::Idle
            },
            ..self
        }
    }

    /// The engine after `event`.
    ///
    /// An event that reports what the engine waits for moves it on. Any
    /// other event leaves it as it is. From `Exhausted` nothing moves it.
    pub open spec fn next<T, E>(self, event: VaultEvent<T, E>) -> Self {
        match self.state {
            StreamState::Exhausted => self,
            StreamState::Uninitialized | StreamState::Idle => match event {
                Event::Launched => self.moved_to(StreamState::Fetching),
                Event::Rejected(_) => self.moved_to(StreamState::Exhausted),
                _ => self,
            },
            StreamState::Fetching => match event {
                Event::Failed(_) => self.moved_to(StreamState::Exhausted),
                Event::Page(page) => self.turned(page),
                _ => self,
            },
        }
    }

    /// What the engine answers to `event`.
    ///
    /// With no fetch in flight it asks for one, on the request that its
    /// cursor gives; with one in flight it asks to have it polled. A page
    /// is delivered as it came, the last one too. An error ends the
    /// sequence: a refused request as well as a failed fetch.
    pub open spec fn answer<T, E>(self, event: VaultEvent<T, E>) -> VaultAnswer<T, E> {
        match self.state {
            StreamState::Exhausted => Action::Done,
            StreamState::Uninitialized | StreamState::Idle => match event {
                Event::Launched => Action::Pending,
                Event::Rejected(e) => Action::Fail(e),
                _ => Action::Launch(self.request()),
            },
            StreamState::Fetching => match event {
                Event::NotReady => Action::Pending,
                Event::Failed(e) => Action::Fail(e),
                Event::Page(page) => Action::Deliver(page),
                _ => Action::Poll,
            },
        }
    }

    /// The engine after the events of `trace`, taken in their order.
    pub open spec fn run<T, E>(self, trace: Seq<VaultEvent<T, E>>) -> Self
        decreases trace.len(),
    {
        if trace.len() == 0 {
            self
        } else {
            self.run(trace.drop_last()).next(trace.last())
        }
    }

    /// What the engine answers to the event at place `i` of `trace`, after
    /// the events before it.
    pub open spec fn answer_at<T, E>(self, trace: Seq<VaultEvent<T, E>>, i: int) -> VaultAnswer<
        T,
        E,
    >
        recommends
            0 <= i < trace.len(),
    {
        self.run(trace.take(i)).answer(trace[i])
    }

    /// The number of fetches that are launched in the course of `trace`.
    pub open spec fn launched<T, E>(self, trace: Seq<VaultEvent<T, E>>) -> nat
        decreases trace.len(),
    {
        if trace.len() == 0 {
            0
        } else {
            let before = self.run(trace.drop_last());
            let one: nat = if before.state.launches(trace.last()) {
                1
            } else {
                0
            };
            self.launched(trace.drop_last()) + one
        }
    }

    /// The number of fetches that resolve in the course of `trace`.
    pub open spec fn resolved<T, E>(self, trace: Seq<VaultEvent<T, E>>) -> nat
        decreases trace.len(),
    {
        if trace.len() == 0 {
            0
        } else {
            let before = self.run(trace.drop_last());
            let one: nat = if before.state.resolves(trace.last()) {
                1
            } else {
                0
            };
            self.resolved(trace.drop_last()) + one
        }
    }
}

impl<C> VaultStream<C> {
    /// An engine that has asked for nothing yet. Its first request names
    /// the first page.
    pub fn new(client: Arc<C>, batch: u16) -> (stream: Self)
        ensures
            stream@ == (VaultStreamView {
                client,
                batch,
                after: None,
                state: StreamState::Uninitialized,
            }),
    {
        VaultStream { client, batch, after: None, state: StreamState::Uninitialized }
    }

    /// The transport that the pages come from.
    pub fn client(&self) -> (client: &Arc<C>)
        ensures
            *client == self@.client,
    {
        &self.client
    }

    /// Where the engine stands.
    pub fn state(&self) -> (state: StreamState)
        ensures
            state == self@.state,
    {
        self.state
    }

    /// The token of the page that is fetched next; `None` before the first
    /// page, and after the last.
    pub fn after(&self) -> (after: &Option<String>)
        ensures
            token_view(*after) == self@.after,
    {
        &self.after
    }

    /// The request for the page that the cursor leads to.
    pub fn build_params(&self) -> (request: VaultRequest)
        ensures
            request@ == self@.request(),
    {
        let after = match &self.after {
            Some(token) => token.clone(),
            None => String::new(),
        };
        VaultRequest { limit: self.batch, after }
    }

    /// Takes one event and answers it.
    ///
    /// The driver starts every advance of the consumer with
    /// [`Event::Advance`], carries out what the engine asks for, reports
    /// the outcome as the next event, and goes on until the answer is one
    /// for the consumer.
    pub fn poll_next<T, E>(&mut self, event: VaultEvent<T, E>) -> (action: VaultAction<T, E>)
        ensures
            final(self)@ == old(self)@.next(event),
            action@ == old(self)@.answer(event),
    {
        match self.state {
            StreamState::Exhausted => Action::Done,
            StreamState::Uninitialized | StreamState::Idle => match event {
                Event::Launched => {
                    self.state = StreamState::Fetching;
                    Action::Pending
                },
                Event::Rejected(e) => {
                    self.state = StreamState::Exhausted;
                    Action::Fail(e)
                },
                _ => Action::Launch(self.build_params()),
            },
            StreamState::Fetching => match event {
                Event::NotReady => Action::Pending,
                Event::Failed(e) => {
                    self.state = StreamState::Exhausted;
                    Action::Fail(e)
                },
                Event::Page(page) => {
                    self.after = page.next_cursor();
                    self.state = if page.is_exhausted() {
                        StreamState::Exhausted
                    } else {
                        StreamState::Idle
                    };
                    Action::Deliver(page)
                },
                _ => Action::Poll,
            },
        }
    }
}

} // verus!
