//! The bodies that go onto the wire, one record for each transaction kind,
//! and the remote method that takes each.

use vstd::prelude::*;
use crate::entity_id::{AccountAddress, AccountId, EntityId, TokenId};
use crate::error::Error;
use crate::hbar::Duration;
use crate::key::Key;
use crate::transaction_id::{Timestamp, TransactionId};

verus! {

/// The remote method that takes a transaction of one kind.
#[derive(Clone, Copy, Debug, PartialEq, Eq, Structural)]
pub enum RpcMethod {
    /// `createAccount` of the crypto service.
    CryptoCreateAccount,
    /// `cryptoDelete` of the crypto service.
    CryptoDelete,
    /// `updateToken` of the token service.
    TokenUpdate,
    /// `submitMessage` of the consensus service.
    SubmitMessage,
}

/// The tag of the account-creation body within a transaction body.
pub const TAG_CRYPTO_CREATE_ACCOUNT: u32 = 11;

/// The tag of the account-deletion body within a transaction body.
pub const TAG_CRYPTO_DELETE: u32 = 12;

/// The tag of the token-update body within a transaction body.
pub const TAG_TOKEN_UPDATE: u32 = 36;

/// The tag of the message-submission body within a transaction body.
pub const TAG_CONSENSUS_SUBMIT_MESSAGE: u32 = 27;

impl RpcMethod {
    /// The tag that the method's body carries on the wire.
    pub open spec fn spec_tag(&self) -> u32 {
        match *self {
            RpcMethod::CryptoCreateAccount => TAG_CRYPTO_CREATE_ACCOUNT,
            RpcMethod::CryptoDelete => TAG_CRYPTO_DELETE,
            RpcMethod::TokenUpdate => TAG_TOKEN_UPDATE,
            RpcMethod::SubmitMessage => TAG_CONSENSUS_SUBMIT_MESSAGE,
        }
    }

    /// The tag that the method's body carries on the wire.
    pub fn tag(&self) -> (t: u32)
        ensures
            t == self.spec_tag(),
    {
        match self {
            RpcMethod::CryptoCreateAccount => TAG_CRYPTO_CREATE_ACCOUNT,
            RpcMethod::CryptoDelete => TAG_CRYPTO_DELETE,
            RpcMethod::TokenUpdate => TAG_TOKEN_UPDATE,
            RpcMethod::SubmitMessage => TAG_CONSENSUS_SUBMIT_MESSAGE,
        }
    }

    /// The method whose body carries `tag`; a tag of no known kind is an
    /// error of the decoding boundary.
    pub fn from_tag(tag: u32) -> (r: Result<RpcMethod, Error>)
        ensures
            r matches Ok(m) ==> m.spec_tag() == tag,
            r is Ok <==> tag == TAG_CRYPTO_CREATE_ACCOUNT || tag == TAG_CRYPTO_DELETE || tag
                == TAG_TOKEN_UPDATE || tag == TAG_CONSENSUS_SUBMIT_MESSAGE,
            r matches Err(e) ==> e == (Error::UnsupportedTransactionKind { tag }),
    {
        if tag == TAG_CRYPTO_CREATE_ACCOUNT {
            Ok(RpcMethod::CryptoCreateAccount)
        } else if tag == TAG_CRYPTO_DELETE {
            Ok(RpcMethod::CryptoDelete)
        } else if tag == TAG_TOKEN_UPDATE {
            Ok(RpcMethod::TokenUpdate)
        } else if tag == TAG_CONSENSUS_SUBMIT_MESSAGE {
            Ok(RpcMethod::SubmitMessage)
        } else {
            Err(Error::UnsupportedTransactionKind { tag })
        }
    }

    /// The name of the service that offers the method.
    pub fn service(&self) -> (name: &'static str)
        ensures
            name@ == match *self {
                RpcMethod::TokenUpdate => "TokenService"@,
                RpcMethod::SubmitMessage => "ConsensusService"@,
                _ => "CryptoService"@,
            },
    {
        match self {
            RpcMethod::TokenUpdate => "TokenService",
            RpcMethod::SubmitMessage => "ConsensusService",
            _ => "CryptoService",
        }
    }

    /// The name of the method within its service.
    pub fn name(&self) -> (name: &'static str)
        ensures
            name@ == match *self {
                RpcMethod::CryptoCreateAccount => "createAccount"@,
                RpcMethod::CryptoDelete => "cryptoDelete"@,
                RpcMethod::TokenUpdate => "updateToken"@,
                RpcMethod::SubmitMessage => "submitMessage"@,
            },
    {
        match self {
            RpcMethod::CryptoCreateAccount => "createAccount",
            RpcMethod::CryptoDelete => "cryptoDelete",
            RpcMethod::TokenUpdate => "updateToken",
            RpcMethod::SubmitMessage => "submitMessage",
        }
    }
}

/// What an account stakes to, as the wire holds it.
#[derive(Clone, Copy, Debug, PartialEq, Eq)]
pub enum WireStakedId {
    StakedAccountId(AccountId),
    StakedNodeId(i64),
}

/// The wire body that creates an account.
#[derive(Debug)]
pub struct CryptoCreateTransactionBody {
    pub key: Option<Key>,
    pub initial_balance: u64,
    pub send_record_threshold: u64,
    pub receive_record_threshold: u64,
    pub receiver_sig_required: bool,
    pub auto_renew_period: Option<Duration>,
    pub memo: String,
    pub max_automatic_token_associations: i32,
    pub alias: Vec<u8>,
    pub decline_reward: bool,
    pub staked_id: Option<WireStakedId>,
}

/// The wire body that deletes an account.
#[derive(Clone, Copy, Debug)]
pub struct CryptoDeleteTransactionBody {
    pub transfer_account_id: Option<AccountAddress>,
    pub delete_account_id: Option<AccountAddress>,
}

/// The wire body that updates a token.
#[derive(Debug)]
pub struct TokenUpdateTransactionBody {
    pub token: Option<TokenId>,
    pub name: String,
    pub symbol: String,
    pub treasury: Option<AccountId>,
    pub admin_key: Option<Key>,
    pub kyc_key: Option<Key>,
    pub freeze_key: Option<Key>,
    pub wipe_key: Option<Key>,
    pub supply_key: Option<Key>,
    pub auto_renew_account: Option<AccountId>,
    pub auto_renew_period: Option<Duration>,
    pub expiry: Option<Timestamp>,
    pub memo: Option<String>,
    pub fee_schedule_key: Option<Key>,
    pub pause_key: Option<Key>,
}

/// Where a chunk stands among the chunks of one message.
#[derive(Clone, Copy, Debug, PartialEq, Eq)]
pub struct ConsensusMessageChunkInfo {
    /// The identifier of the first chunk.
    pub initial_transaction_id: TransactionId,
    /// The number of chunks of the message.
    pub total: usize,
    /// The number of this chunk, counted from 1.
    pub number: usize,
}

/// The wire body that submits a message, or one chunk of it, to a topic.
#[derive(Debug)]
pub struct ConsensusSubmitMessageTransactionBody {
    pub topic_id: Option<EntityId>,
    pub message: Vec<u8>,
    pub chunk_info: Option<ConsensusMessageChunkInfo>,
}

/// The body of a transaction, tagged with its kind.
#[derive(Debug)]
pub enum TransactionBodyData {
    CryptoCreateAccount(CryptoCreateTransactionBody),
    CryptoDelete(CryptoDeleteTransactionBody),
    TokenUpdate(TokenUpdateTransactionBody),
    ConsensusSubmitMessage(ConsensusSubmitMessageTransactionBody),
}

/// The body of a transaction that is scheduled for later, tagged with its
/// kind. An account deletion cannot be scheduled through this library.
#[derive(Debug)]
pub enum SchedulableTransactionBodyData {
    CryptoCreateAccount(CryptoCreateTransactionBody),
    TokenUpdate(TokenUpdateTransactionBody),
}

} // verus!
