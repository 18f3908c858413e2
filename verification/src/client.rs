//! The entry point: a shared handle to the transport, from which the
//! engines are made.

use crate::epoch::Epoch;
use crate::state::StreamState;
use crate::transaction_stream::{TransactionStream, TransactionStreamView};
use crate::vault_stream::{VaultStream, VaultStreamView};
use std::sync::Arc;
use vstd::prelude::*;

verus! {

/// A handle to the transport `C`, shared with every engine made from it.
/// No engine changes the transport.
pub struct PagedClient<C> {
    pub client: Arc<C>,
}

/// The instant from which a transaction listing starts: the one that the
/// caller names, or the default.
pub open spec fn starting_instant(after: Option<Epoch>) -> Epoch {
    match after {
        Some(instant) => instant,
        None => Epoch::default_after_spec(),
    }
}

impl<C> PagedClient<C> {
    pub fn new(client: Arc<C>) -> (paged: Self)
        ensures
            paged.client == client,
    {
        PagedClient { client }
    }

    /// The vault accounts, `batch_size` to a page, from the first page on.
    pub fn vaults(&self, batch_size: u16) -> (stream: VaultStream<C>)
        ensures
            stream@ == (VaultStreamView {
                client: self.client,
                batch: batch_size,
                after: None,
                state: StreamState::Uninitialized,
            }),
    {
        VaultStream::new(self.client.clone(), batch_size)
    }

    /// The transfers that leave the vault account `vault_id`, `batch_size`
    /// to a page, oldest first, from `after` on; from the default instant
    /// where the caller names none.
    pub fn transactions_from_source(
        &self,
        vault_id: i32,
        batch_size: u16,
        after: Option<Epoch>,
    ) -> (stream: TransactionStream<C>)
        ensures
            stream@ == (TransactionStreamView {
                client: self.client,
                batch: batch_size,
                state: StreamState::Uninitialized,
                vault_id,
                after: starting_instant(after),
                is_source: true,
            }),
    {
        let start = match after {
            Some(instant) => instant,
            None => Epoch::default_after(),
        };
        TransactionStream::from_source(self.client.clone(), batch_size, vault_id, start)
    }

    /// The transfers that reach the vault account `vault_id`, `batch_size`
    /// to a page, oldest first, from `after` on; from the default instant
    /// where the caller names none.
    pub fn transactions_from_destination(
        &self,
        vault_id: i32,
        batch_size: u16,
        after: Option<Epoch>,
    ) -> (stream: TransactionStream<C>)
        ensures
            stream@ == (TransactionStreamView {
                client: self.client,
                batch: batch_size,
                state: StreamState::Uninitialized,
                vault_id,
                after: starting_instant(after),
                is_source: false,
            }),
    {
        let start = match after {
            Some(instant) => instant,
            None => Epoch::default_after(),
        };
        TransactionStream::from_dest(self.client.clone(), batch_size, vault_id, start)
    }
}

impl<C> Clone for PagedClient<C> {
    /// Another handle to the same transport.
    fn clone(&self) -> (paged: Self)
        ensures
            paged.client == self.client,
    {
        PagedClient { client: self.client.clone() }
    }
}

} // verus!
