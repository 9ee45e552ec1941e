//! The closed set of payload kinds, and the dispatch from a payload of any
//! kind to what the envelope needs of it.

use vstd::prelude::*;
use vstd::std_specs::convert::FromSpecImpl;
use crate::account_create::{AccountCreateTransactionData, EVM_ADDRESS_LENGTH};
use crate::account_delete::AccountDeleteTransactionData;
use crate::entity_id::EntityId;
use crate::error::Error;
use crate::key::{is_key_length, PublicKey};
use crate::token_update::TokenUpdateTransactionData;
use crate::topic_message_submit::TopicMessageSubmitTransactionData;
use crate::transaction::{Transaction, TransactionData};
use crate::wire::{RpcMethod, TransactionBodyData};

verus! {

/// A payload of any of the kinds that this library knows.
#[derive(Debug)]
pub enum AnyTransactionData {
    AccountCreate(AccountCreateTransactionData),
    AccountDelete(AccountDeleteTransactionData),
    TokenUpdate(TokenUpdateTransactionData),
    TopicMessageSubmit(TopicMessageSubmitTransactionData),
}

/// A transaction around a payload of any kind.
pub type AnyTransaction = Transaction<AnyTransactionData>;

impl From<AccountCreateTransactionData> for AnyTransactionData {
    fn from(transaction: AccountCreateTransactionData) -> (data: Self) {
        Self::AccountCreate(transaction)
    }
}

impl FromSpecImpl<AccountCreateTransactionData> for AnyTransactionData {
    open spec fn obeys_from_spec() -> bool {
        true
    }

    open spec fn from_spec(transaction: AccountCreateTransactionData) -> Self {
        AnyTransactionData::AccountCreate(transaction)
    }
}

impl From<AccountDeleteTransactionData> for AnyTransactionData {
    fn from(transaction: AccountDeleteTransactionData) -> (data: Self) {
        Self::AccountDelete(transaction)
    }
}

impl FromSpecImpl<AccountDeleteTransactionData> for AnyTransactionData {
    open spec fn obeys_from_spec() -> bool {
        true
    }

    open spec fn from_spec(transaction: AccountDeleteTransactionData) -> Self {
        AnyTransactionData::AccountDelete(transaction)
    }
}

impl From<TopicMessageSubmitTransactionData> for AnyTransactionData {
    fn from(transaction: TopicMessageSubmitTransactionData) -> (data: Self) {
        Self::TopicMessageSubmit(transaction)
    }
}

impl FromSpecImpl<TopicMessageSubmitTransactionData> for AnyTransactionData {
    open spec fn obeys_from_spec() -> bool {
        true
    }

    open spec fn from_spec(transaction: TopicMessageSubmitTransactionData) -> Self {
        AnyTransactionData::TopicMessageSubmit(transaction)
    }
}

impl From<TokenUpdateTransactionData> for AnyTransactionData {
    fn from(transaction: TokenUpdateTransactionData) -> (data: Self) {
        Self::TokenUpdate(transaction)
    }
}

impl FromSpecImpl<TokenUpdateTransactionData> for AnyTransactionData {
    open spec fn obeys_from_spec() -> bool {
        true
    }

    open spec fn from_spec(transaction: TokenUpdateTransactionData) -> Self {
        AnyTransactionData::TokenUpdate(transaction)
    }
}

/// Whether a wire body can be read: every body can, but an account creation
/// whose alias bytes are neither empty, nor an EVM address, nor a public key.
pub open spec fn can_read(body: TransactionBodyData) -> bool {
    match body {
        TransactionBodyData::CryptoCreateAccount(b) => b.alias@.len() == 0 || b.alias@.len()
            == EVM_ADDRESS_LENGTH || is_key_length(b.alias@.len()),
        _ => true,
    }
}

impl AnyTransactionData {
    /// Whether the payload is what `body` holds, by the rule of its kind.
    pub open spec fn is_from_protobuf(&self, body: TransactionBodyData) -> bool {
        match (*self, body) {
            (
                AnyTransactionData::AccountCreate(data),
                TransactionBodyData::CryptoCreateAccount(b),
            ) => data.is_from_protobuf(b),
            (AnyTransactionData::AccountDelete(data), TransactionBodyData::CryptoDelete(b)) => {
                data.spec_to_protobuf() == b
            },
            (AnyTransactionData::TokenUpdate(data), TransactionBodyData::TokenUpdate(b)) => {
                data.is_from_protobuf(b)
            },
            (
                AnyTransactionData::TopicMessageSubmit(data),
                TransactionBodyData::ConsensusSubmitMessage(b),
            ) => data.topic_id == b.topic_id && data.message == b.message,
            _ => false,
        }
    }

    /// The payload that a wire body holds: the kind follows the body's tag,
    /// and the fields are read by the rule of that kind.
    pub fn from_protobuf(body: TransactionBodyData) -> (r: Result<Self, Error>)
        ensures
            r is Ok <==> can_read(body),
            r matches Ok(data) ==> data.is_from_protobuf(body),
            r matches Err(e) ==> e == Error::KeyParse,
    {
        match body {
            TransactionBodyData::CryptoCreateAccount(b) => {
                match AccountCreateTransactionData::from_protobuf(b) {
                    Ok(data) => Ok(AnyTransactionData::AccountCreate(data)),
                    Err(e) => Err(e),
                }
            },
            TransactionBodyData::CryptoDelete(b) => Ok(
                AnyTransactionData::AccountDelete(AccountDeleteTransactionData::from_protobuf(b)),
            ),
            TransactionBodyData::TokenUpdate(b) => {
                match TokenUpdateTransactionData::from_protobuf(b) {
                    Ok(data) => Ok(AnyTransactionData::TokenUpdate(data)),
                    Err(e) => Err(e),
                }
            },
            TransactionBodyData::ConsensusSubmitMessage(b) => Ok(
                AnyTransactionData::TopicMessageSubmit(
                    TopicMessageSubmitTransactionData::from_protobuf(b),
                ),
            ),
        }
    }
}

impl TransactionData for AnyTransactionData {
    open spec fn spec_entity_ids(&self) -> Seq<EntityId> {
        match *self {
            AnyTransactionData::AccountCreate(data) => data.spec_entity_ids(),
            AnyTransactionData::AccountDelete(data) => data.spec_entity_ids(),
            AnyTransactionData::TokenUpdate(data) => data.spec_entity_ids(),
            AnyTransactionData::TopicMessageSubmit(data) => data.spec_entity_ids(),
        }
    }

    open spec fn spec_rpc_method(&self) -> RpcMethod {
        match *self {
            AnyTransactionData::AccountCreate(data) => data.spec_rpc_method(),
            AnyTransactionData::AccountDelete(data) => data.spec_rpc_method(),
            AnyTransactionData::TokenUpdate(data) => data.spec_rpc_method(),
            AnyTransactionData::TopicMessageSubmit(data) => data.spec_rpc_method(),
        }
    }

    open spec fn spec_content(&self) -> Seq<u8> {
        match *self {
            AnyTransactionData::AccountCreate(data) => data.spec_content(),
            AnyTransactionData::AccountDelete(data) => data.spec_content(),
            AnyTransactionData::TokenUpdate(data) => data.spec_content(),
            AnyTransactionData::TopicMessageSubmit(data) => data.spec_content(),
        }
    }

    open spec fn is_wire_body(&self, body: TransactionBodyData) -> bool {
        match *self {
            AnyTransactionData::AccountCreate(data) => data.is_wire_body(body),
            AnyTransactionData::AccountDelete(data) => data.is_wire_body(body),
            AnyTransactionData::TokenUpdate(data) => data.is_wire_body(body),
            AnyTransactionData::TopicMessageSubmit(data) => data.is_wire_body(body),
        }
    }

    fn entity_ids(&self) -> (ids: Vec<EntityId>) {
        match self {
            AnyTransactionData::AccountCreate(data) => data.entity_ids(),
            AnyTransactionData::AccountDelete(data) => data.entity_ids(),
            AnyTransactionData::TokenUpdate(data) => data.entity_ids(),
            AnyTransactionData::TopicMessageSubmit(data) => data.entity_ids(),
        }
    }

    open spec fn spec_required_signers(&self) -> Seq<Seq<u8>> {
        match *self {
            AnyTransactionData::AccountCreate(data) => data.spec_required_signers(),
            AnyTransactionData::AccountDelete(data) => data.spec_required_signers(),
            AnyTransactionData::TokenUpdate(data) => data.spec_required_signers(),
            AnyTransactionData::TopicMessageSubmit(data) => data.spec_required_signers(),
        }
    }

    fn required_signers(&self) -> (keys: Vec<PublicKey>) {
        match self {
            AnyTransactionData::AccountCreate(data) => data.required_signers(),
            AnyTransactionData::AccountDelete(data) => data.required_signers(),
            AnyTransactionData::TokenUpdate(data) => data.required_signers(),
            AnyTransactionData::TopicMessageSubmit(data) => data.required_signers(),
        }
    }

    fn rpc_method(&self) -> (method: RpcMethod) {
        match self {
            AnyTransactionData::AccountCreate(data) => data.rpc_method(),
            AnyTransactionData::AccountDelete(data) => data.rpc_method(),
            AnyTransactionData::TokenUpdate(data) => data.rpc_method(),
            AnyTransactionData::TopicMessageSubmit(data) => data.rpc_method(),
        }
    }

    fn content(&self) -> (content: Option<&Vec<u8>>) {
        match self {
            AnyTransactionData::AccountCreate(data) => data.content(),
            AnyTransactionData::AccountDelete(data) => data.content(),
            AnyTransactionData::TokenUpdate(data) => data.content(),
            AnyTransactionData::TopicMessageSubmit(data) => data.content(),
        }
    }

    fn to_transaction_data_protobuf(&self) -> (body: TransactionBodyData) {
        match self {
            AnyTransactionData::AccountCreate(data) => data.to_transaction_data_protobuf(),
            AnyTransactionData::AccountDelete(data) => data.to_transaction_data_protobuf(),
            AnyTransactionData::TokenUpdate(data) => data.to_transaction_data_protobuf(),
            AnyTransactionData::TopicMessageSubmit(data) => data.to_transaction_data_protobuf(),
        }
    }
}

/// The remote method of a payload is the one whose tag its wire body
/// carries: dispatch by kind and the tagging of bodies agree.
pub proof fn lemma_method_matches_body(data: AnyTransactionData, body: TransactionBodyData)
    requires
        data.is_wire_body(body),
    ensures
        data.spec_rpc_method() == body_method(body),
{
}

/// The remote method that takes a wire body.
pub open spec fn body_method(body: TransactionBodyData) -> RpcMethod {
    match body {
        TransactionBodyData::CryptoCreateAccount(_) => RpcMethod::CryptoCreateAccount,
        TransactionBodyData::CryptoDelete(_) => RpcMethod::CryptoDelete,
        TransactionBodyData::TokenUpdate(_) => RpcMethod::TokenUpdate,
        TransactionBodyData::ConsensusSubmitMessage(_) => RpcMethod::SubmitMessage,
    }
}

} // verus!
