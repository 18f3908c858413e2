//! Pages, and the two policies that read the next cursor off a page.
//!
//! A token policy takes the cursor from a field of the answer: the remote
//! side names the next page, or names none when the listing is over. A
//! timestamp policy derives the cursor from the items: the next page starts
//! one millisecond after the last item of this one, and an empty page means
//! that the listing is over.

use crate::epoch::Epoch;
use vstd::prelude::*;

verus! {

/// One page of a listing that is paged by a token of the remote side.
#[derive(Clone, Debug, PartialEq, Eq)]
pub struct TokenPage<T> {
    /// The items, in the order in which the remote side gave them.
    pub items: Vec<T>,
    /// The token that leads to the next page; `None` after the last page.
    pub next: Option<String>,
}

/// The characters of a token, where there is one.
pub open spec fn token_view(token: Option<String>) -> Option<Seq<char>> {
    match token {
        Some(t) => Some(t@),
        None => None,
    }
}

/// A copy of a token, where there is one.
fn token_clone(token: &Option<String>) -> (copy: Option<String>)
    ensures
        copy == *token,
{
    match token {
        Some(t) => Some(t.clone()),
        None => None,
    }
}

impl<T> TokenPage<T> {
    /// The cursor that this page leads to.
    pub open spec fn next_cursor_spec(self) -> Option<Seq<char>> {
        token_view(self.next)
    }

    /// Whether the listing is over with this page: it names no next page.
    pub open spec fn is_exhausted_spec(self) -> bool {
        self.next is None
    }

    /// The cursor that this page leads to: the token that the remote side
    /// gave with it.
    pub fn next_cursor(&self) -> (cursor: Option<String>)
        ensures
            token_view(cursor) == self.next_cursor_spec(),
    {
        token_clone(&self.next)
    }

    /// Whether the listing is over with this page.
    pub fn is_exhausted(&self) -> (over: bool)
        ensures
            over == self.is_exhausted_spec(),
    {
        self.next.is_none()
    }
}

/// An item of a listing that is paged by time, with the instant at which
/// it was created.
#[derive(Clone, Debug, PartialEq, Eq)]
pub struct Stamped<T> {
    pub created_at: Epoch,
    pub item: T,
}

/// One page of a listing that is paged by time. The remote side gives the
/// items oldest first.
#[derive(Clone, Debug, PartialEq, Eq)]
pub struct TimedPage<T> {
    pub items: Vec<Stamped<T>>,
}

impl<T> TimedPage<T> {
    /// The instant of the last item. Meaningful on a page that has one.
    pub open spec fn last_created_at(self) -> Epoch
        recommends
            self.items@.len() > 0,
    {
        self.items@.last().created_at
    }

    /// Whether a cursor can be read off this page: it is empty, or its
    /// last item is not at the last instant that there is.
    pub open spec fn advances(self) -> bool {
        self.items@.len() > 0 ==> self.last_created_at().has_successor()
    }

    /// The cursor that this page leads to: one millisecond after its last
    /// item, so that the next page starts strictly after it. An empty page
    /// leads nowhere.
    pub open spec fn next_cursor_spec(self) -> Option<Epoch> {
        if self.items@.len() == 0 {
            None
        } else {
            Some(self.last_created_at().successor_spec())
        }
    }

    /// Whether the listing is over with this page: it holds nothing, so
    /// nothing exists at or after the cursor that it was asked with.
    pub open spec fn is_exhausted_spec(self) -> bool {
        self.items@.len() == 0
    }

    /// Whether a cursor can be read off this page.
    pub fn can_advance(&self) -> (can: bool)
        ensures
            can == self.advances(),
    {
        let n: usize = self.items.len();
        n == 0 || self.items[n - 1].created_at.millis < i64::MAX
    }

    /// The cursor that this page leads to.
    pub fn next_cursor(&self) -> (cursor: Option<Epoch>)
        requires
            self.advances(),
        ensures
            cursor == self.next_cursor_spec(),
            cursor matches Some(c) ==> c.millis == self.last_created_at().millis + 1,
    {
        let n: usize = self.items.len();
        if n == 0 {
            None
        } else {
            Some(self.items[n - 1].created_at.successor())
        }
    }

    /// Whether the listing is over with this page.
    pub fn is_exhausted(&self) -> (over: bool)
        ensures
            over == self.is_exhausted_spec(),
    {
        self.items.len() == 0
    }
}

} // verus!
