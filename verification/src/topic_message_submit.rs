//! The transaction that submits a message to a topic. Its message is the
//! content that is split into chunks where it is too large for one
//! transaction.

use vstd::prelude::*;
use crate::chunk::Chunk;
use crate::entity_id::{
    optional_entity_ids, push_optional_id, validate_checksums, validation_result_all, EntityId,
    LedgerId,
};
use crate::error::Error;
use crate::key::{copy_bytes, key_views, PublicKey};
use crate::transaction::{Transaction, TransactionData};
use crate::wire::{
    ConsensusMessageChunkInfo, ConsensusSubmitMessageTransactionBody, RpcMethod,
    TransactionBodyData,
};

verus! {

/// The identifier of a topic.
pub type TopicId = EntityId;

/// Submit a message for consensus on a topic.
pub type TopicMessageSubmitTransaction = Transaction<TopicMessageSubmitTransactionData>;

/// The payload of a [`TopicMessageSubmitTransaction`].
#[derive(Debug)]
pub struct TopicMessageSubmitTransactionData {
    /// The topic to submit the message to.
    pub topic_id: Option<TopicId>,
    /// The message.
    pub message: Vec<u8>,
}

impl Default for TopicMessageSubmitTransactionData {
    fn default() -> (data: Self)
        ensures
            data.topic_id is None,
            data.message@.len() == 0,
    {
        TopicMessageSubmitTransactionData { topic_id: None, message: Vec::new() }
    }
}

impl TopicMessageSubmitTransaction {
    /// A transaction with no topic and an empty message.
    pub fn new() -> (t: Self)
        ensures
            t.wf(),
            !t.spec_is_frozen(),
            t.data.topic_id is None,
            t.data.message@.len() == 0,
            t.transaction_id is None,
            t.node_account_ids@.len() == 0,
    {
        Transaction::new_with_data(TopicMessageSubmitTransactionData::default())
    }

    /// Returns the topic to submit the message to.
    #[must_use]
    pub fn get_topic_id(&self) -> (v: Option<TopicId>)
        ensures
            v == self.data.topic_id,
    {
        self.data.topic_id
    }

    /// Sets the topic to submit the message to. Fails once the transaction
    /// is frozen.
    pub fn topic_id(&mut self, id: TopicId) -> (r: Result<(), Error>)
        ensures
            r == old(self).require_not_frozen_result(),
            *final(self) == if r is Ok {
                Transaction {
                    data: (TopicMessageSubmitTransactionData {
                        topic_id: Some(id),
                        ..old(self).data
                    }),
                    ..*old(self)
                }
            } else {
                *old(self)
            },
    {
        if self.is_frozen() {
            return Err(Error::FrozenState);
        }
        self.data.topic_id = Some(id);
        Ok(())
    }

    /// Returns the message.
    #[must_use]
    pub fn get_message(&self) -> (v: &Vec<u8>)
        ensures
            *v == self.data.message,
    {
        &self.data.message
    }

    /// Sets the message. Fails once the transaction is frozen.
    pub fn message(&mut self, bytes: Vec<u8>) -> (r: Result<(), Error>)
        ensures
            r == old(self).require_not_frozen_result(),
            *final(self) == if r is Ok {
                Transaction {
                    data: (TopicMessageSubmitTransactionData {
                        message: bytes,
                        ..old(self).data
                    }),
                    ..*old(self)
                }
            } else {
                *old(self)
            },
    {
        if self.is_frozen() {
            return Err(Error::FrozenState);
        }
        self.data.message = bytes;
        Ok(())
    }
}

impl TopicMessageSubmitTransactionData {
    /// Whether `body` is the wire body of the whole payload: the topic, the
    /// whole message, and no chunk information.
    pub open spec fn is_protobuf(&self, body: ConsensusSubmitMessageTransactionBody) -> bool {
        &&& body.topic_id == self.topic_id
        &&& body.message@ == self.message@
        &&& body.chunk_info is None
    }

    /// Whether `body` is the wire body of `chunk`: the topic, the chunk's
    /// part of the message, the shared first identifier, the number of
    /// chunks, and the chunk's number, counted from 1.
    pub open spec fn is_chunk_protobuf(
        &self,
        chunk: Chunk,
        body: ConsensusSubmitMessageTransactionBody,
    ) -> bool {
        &&& body.topic_id == self.topic_id
        &&& body.message@ == chunk.data@
        &&& body.chunk_info == Some(
            ConsensusMessageChunkInfo {
                initial_transaction_id: chunk.initial_transaction_id,
                total: chunk.total,
                number: (chunk.index + 1) as usize,
            },
        )
    }

    /// The wire body of the whole payload.
    pub fn to_protobuf(&self) -> (body: ConsensusSubmitMessageTransactionBody)
        ensures
            self.is_protobuf(body),
    {
        ConsensusSubmitMessageTransactionBody {
            topic_id: self.topic_id,
            message: copy_bytes(&self.message),
            chunk_info: None,
        }
    }

    /// The wire body of one chunk of the payload.
    pub fn chunk_to_protobuf(&self, chunk: &Chunk) -> (body: ConsensusSubmitMessageTransactionBody)
        requires
            chunk.index < chunk.total,
        ensures
            self.is_chunk_protobuf(*chunk, body),
    {
        ConsensusSubmitMessageTransactionBody {
            topic_id: self.topic_id,
            message: copy_bytes(&chunk.data),
            chunk_info: Some(
                ConsensusMessageChunkInfo {
                    initial_transaction_id: chunk.initial_transaction_id,
                    total: chunk.total,
                    number: chunk.index + 1,
                },
            ),
        }
    }

    /// The payload that a wire body holds: its topic and its message.
    pub fn from_protobuf(body: ConsensusSubmitMessageTransactionBody) -> (data: Self)
        ensures
            data.topic_id == body.topic_id,
            data.message == body.message,
    {
        TopicMessageSubmitTransactionData { topic_id: body.topic_id, message: body.message }
    }

    /// Validates the checksum of the topic against `ledger`.
    pub fn validate_checksums(&self, ledger: &LedgerId) -> (r: Result<(), Error>)
        ensures
            r == validation_result_all(self.spec_entity_ids(), ledger@),
    {
        let ids = self.entity_ids();
        validate_checksums(&ids, ledger)
    }
}

impl TransactionData for TopicMessageSubmitTransactionData {
    open spec fn spec_entity_ids(&self) -> Seq<EntityId> {
        optional_entity_ids(self.topic_id)
    }

    open spec fn spec_rpc_method(&self) -> RpcMethod {
        RpcMethod::SubmitMessage
    }

    open spec fn spec_content(&self) -> Seq<u8> {
        self.message@
    }

    open spec fn is_wire_body(&self, body: TransactionBodyData) -> bool {
        body matches TransactionBodyData::ConsensusSubmitMessage(b) && self.is_protobuf(b)
    }

    open spec fn spec_required_signers(&self) -> Seq<Seq<u8>> {
        Seq::empty()
    }

    fn required_signers(&self) -> (keys: Vec<PublicKey>) {
        let keys: Vec<PublicKey> = Vec::new();
        assert(key_views(keys@) =~= self.spec_required_signers());
        keys
    }

    fn entity_ids(&self) -> (ids: Vec<EntityId>) {
        let mut ids: Vec<EntityId> = Vec::new();
        push_optional_id(&mut ids, &self.topic_id);
        assert(ids@ =~= self.spec_entity_ids());
        ids
    }

    fn rpc_method(&self) -> (method: RpcMethod) {
        RpcMethod::SubmitMessage
    }

    fn content(&self) -> (content: Option<&Vec<u8>>) {
        Some(&self.message)
    }

    fn to_transaction_data_protobuf(&self) -> (body: TransactionBodyData) {
        TransactionBodyData::ConsensusSubmitMessage(self.to_protobuf())
    }
}

} // verus!
