//! Transaction identifiers.

use vstd::prelude::*;
use crate::entity_id::AccountId;

verus! {

/// A point in time: seconds since the Unix epoch, and nanoseconds within the
/// second.
#[derive(Clone, Copy, Debug, PartialEq, Eq)]
pub struct Timestamp {
    pub seconds: i64,
    pub nanos: u32,
}

/// The identity of one transaction, or of one chunk of it, on the network.
#[derive(Clone, Copy, Debug, PartialEq, Eq)]
pub struct TransactionId {
    /// The account that pays for the transaction.
    pub account_id: AccountId,
    /// The time from which the transaction is valid.
    pub valid_start: Timestamp,
    /// Tells the chunks of one logical transaction apart; absent on a
    /// transaction that is sent whole and on the first chunk.
    pub nonce: Option<u32>,
}

/// The identifier of chunk `index` of the transaction whose first chunk is
/// `base`: `base` itself for the first chunk, and `base` with the index as its
/// nonce for every later one.
pub open spec fn chunk_transaction_id(base: TransactionId, index: int) -> TransactionId {
    if index == 0 {
        base
    } else {
        TransactionId { nonce: Some(index as u32), ..base }
    }
}

impl TransactionId {
    /// The identifier for a transaction that `account_id` pays for and that
    /// is valid from `valid_start`.
    pub fn new(account_id: AccountId, valid_start: Timestamp) -> (id: TransactionId)
        ensures
            id == (TransactionId { account_id, valid_start, nonce: None }),
    {
        TransactionId { account_id, valid_start, nonce: None }
    }

    /// The identifier of chunk `index` of the transaction that starts at `self`.
    pub fn for_chunk(&self, index: u32) -> (id: TransactionId)
        ensures
            id == chunk_transaction_id(*self, index as int),
    {
        if index == 0 {
            *self
        } else {
            TransactionId {
                account_id: self.account_id,
                valid_start: self.valid_start,
                nonce: Some(index),
            }
        }
    }
}

} // verus!
