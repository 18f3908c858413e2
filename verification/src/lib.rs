//! A pull-driven engine for paginated listings.
//!
//! A remote listing hands out one page per request, and with it the means
//! to ask for the next page: a token that the remote side names, or the
//! instant of the last item. The engines of this crate turn such a listing
//! into a sequence of pages which a consumer advances at its own pace.
//!
//! The engines perform no I/O. Each one is a state machine that is driven
//! by events and answers every event with an action:
//!
//! - The driver starts an advance of the consumer with [`Event::Advance`].
//! - Where the engine asks for a launch, the driver has the request
//!   validated. It sends it as one fetch and reports [`Event::Launched`],
//!   or sends nothing and reports [`Event::Rejected`].
//! - Where the engine asks for a poll, the driver polls the fetch in flight
//!   and reports [`Event::NotReady`], [`Event::Page`] or [`Event::Failed`].
//! - Every other answer is for the consumer: no element yet, a page, an
//!   error, or the end of the sequence.
//!
//! An engine asks for a launch only while no fetch is in flight, so the
//! pages arrive in the order of the requests and each request is made from
//! the page before it. An error of either kind is the last element. Once
//! the sequence is over the engine asks for nothing more.
//!
//! [`VaultStream`] pages by token, [`TransactionStream`] by time;
//! [`PagedClient`] makes both over one transport.

pub mod client;
pub mod epoch;
pub mod page;
pub mod state;
pub mod transaction_laws;
pub mod transaction_stream;
pub mod vault_laws;
pub mod vault_stream;

pub use client::PagedClient;
pub use epoch::Epoch;
pub use page::{Stamped, TimedPage, TokenPage};
pub use state::{Action, Event, StreamState};
pub use transaction_stream::{
    OrderBy, Party, Sort, TransactionAction, TransactionEvent, TransactionRequest,
    TransactionStream,
};
pub use vault_stream::{VaultAction, VaultEvent, VaultRequest, VaultStream};
