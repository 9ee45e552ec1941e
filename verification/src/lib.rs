//! Client-side construction, validation and submission of ledger transactions.
//!
//! The crate is built around a generic transaction envelope
//! ([`transaction::Transaction`]) that carries a payload of one kind, is
//! frozen, collects signatures, validates the checksums of the identifiers in
//! its payload and is then handed to the node submission state machine
//! ([`submission::Submission`]). Oversized content is split by the chunk
//! planner ([`chunk::plan_chunks`]).

pub mod account_create;
pub mod account_delete;
pub mod any;
pub mod chunk;
pub mod entity_id;
pub mod error;
pub mod hbar;
pub mod key;
pub mod signature;
pub mod submission;
pub mod token_update;
pub mod topic_message_submit;
pub mod transaction;
pub mod transaction_id;
pub mod wire;
