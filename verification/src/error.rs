//! The errors that local validation reports before anything reaches the network.

use vstd::prelude::*;
use crate::entity_id::Checksum;

verus! {

/// A failure found locally, before any network call.
#[derive(Clone, Copy, Debug, PartialEq, Eq, Structural)]
pub enum Error {
    /// A change of a field was asked for after the transaction had been
    /// frozen.
    FrozenState,
    /// An identifier carries a checksum that differs from the one computed for
    /// the target ledger.
    BadEntityIdChecksum { shard: u64, realm: u64, num: u64, expected: Checksum, actual: Checksum },
    /// The payload needs more chunks than the policy allows.
    ChunkCountExceeded { required: usize, max: usize },
    /// A wire tag names a transaction kind that this library does not know.
    UnsupportedTransactionKind { tag: u32 },
    /// The text of an identifier or of a checksum is malformed.
    BasicParse,
    /// Alias bytes are neither empty, nor an EVM address, nor a public key.
    KeyParse,
    /// The transaction is not in the lifecycle stage that the operation needs.
    WrongStage,
    /// There is no candidate node to send to, or no attempt is allowed.
    NoAttemptPossible,
}

} // verus!
