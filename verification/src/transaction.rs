//! The transaction envelope: one payload, the node candidates and identifier
//! it is sent with, the signatures collected on it, and its lifecycle.

use vstd::prelude::*;
use crate::chunk::{is_plan_for, plan_chunks, required_chunks, Chunk, ChunkPolicy};
use crate::entity_id::{validate_checksums, validation_result_all, AccountId, EntityId, LedgerId};
use crate::error::Error;
use crate::hbar::{Duration, Hbar};
use crate::key::{key_views, PublicKey};
use crate::signature::{
    all_signed, distinct_keys, has_all_signatures, record_signature, signature_map,
    SignaturePair,
};
use crate::submission::{Submission, SubmissionView};
use crate::transaction_id::TransactionId;
use crate::wire::{RpcMethod, TransactionBodyData};

verus! {

/// What the envelope needs of a payload, whatever its kind.
pub trait TransactionData {
    /// The identifiers in the payload whose checksums are validated, in the
    /// order in which they are validated.
    spec fn spec_entity_ids(&self) -> Seq<EntityId>;

    /// The remote method that takes the payload.
    spec fn spec_rpc_method(&self) -> RpcMethod;

    /// The content that is split where the payload is too large for one
    /// transaction; empty for a kind that is always sent whole.
    spec fn spec_content(&self) -> Seq<u8>;

    /// Whether `body` is the wire body of the payload.
    spec fn is_wire_body(&self, body: TransactionBodyData) -> bool;

    /// The public keys that the payload itself shows to be required
    /// signers, as raw bytes.
    spec fn spec_required_signers(&self) -> Seq<Seq<u8>>;

    /// The public keys that the payload itself shows to be required signers.
    fn required_signers(&self) -> (keys: Vec<PublicKey>)
        ensures
            key_views(keys@) == self.spec_required_signers(),
    ;

    /// The identifiers in the payload whose checksums are validated.
    fn entity_ids(&self) -> (ids: Vec<EntityId>)
        ensures
            ids@ == self.spec_entity_ids(),
    ;

    /// The remote method that takes the payload.
    fn rpc_method(&self) -> (method: RpcMethod)
        ensures
            method == self.spec_rpc_method(),
    ;

    /// The content that is split where the payload is too large, if the kind
    /// has any.
    fn content(&self) -> (content: Option<&Vec<u8>>)
        ensures
            match content {
                Some(bytes) => bytes@ == self.spec_content(),
                None => self.spec_content().len() == 0,
            },
    ;

    /// The wire body of the payload.
    fn to_transaction_data_protobuf(&self) -> (body: TransactionBodyData)
        ensures
            self.is_wire_body(body),
    ;
}

/// The stages of a transaction's life. A transaction only ever moves to a
/// later stage.
#[derive(Clone, Copy, Debug, PartialEq, Eq, Structural)]
pub enum Stage {
    /// The payload and the envelope's fields can still be changed.
    Building,
    /// Only signatures can still be added.
    Frozen,
    /// The transaction has been handed to the submission pipeline.
    Submitted,
    /// A node took the transaction.
    Accepted,
    /// The network refused the transaction, or every attempt failed.
    Rejected,
}

/// The rank of a stage in the order of the lifecycle.
pub open spec fn stage_rank(stage: Stage) -> int {
    match stage {
        Stage::Building => 0,
        Stage::Frozen => 1,
        Stage::Submitted => 2,
        Stage::Accepted => 3,
        Stage::Rejected => 3,
    }
}

/// How far the collection of signatures has come.
#[derive(Clone, Copy, Debug, PartialEq, Eq, Structural)]
pub enum SignatureStatus {
    /// No key has signed.
    Unsigned,
    /// Some key has signed, but not every key that the payload requires.
    Partial,
    /// Some key has signed, and so has every key that the payload requires.
    Complete,
}

/// The transaction envelope around a payload of kind `D`.
#[derive(Debug)]
pub struct Transaction<D> {
    /// The payload.
    pub data: D,
    /// The identifier, once assigned.
    pub transaction_id: Option<TransactionId>,
    /// The candidate nodes, in the order in which they are tried; empty
    /// until assigned.
    pub node_account_ids: Vec<AccountId>,
    /// The most that the payer is willing to pay.
    pub max_transaction_fee: Option<Hbar>,
    /// For how long after its start the transaction is valid.
    pub transaction_valid_duration: Option<Duration>,
    /// The signatures collected so far, at most one for each key.
    pub signatures: Vec<SignaturePair>,
    /// The chunk plan, where the payload is too large to be sent whole;
    /// empty otherwise.
    pub chunks: Vec<Chunk>,
    /// Where the transaction stands in its life.
    pub stage: Stage,
}

impl<D> Transaction<D> {
    /// No key holds two signatures, and nothing is planned or signed before
    /// the transaction is frozen.
    pub open spec fn wf(&self) -> bool {
        &&& distinct_keys(self.signatures@)
        &&& self.stage == Stage::Building ==> self.signatures@.len() == 0 && self.chunks@.len()
            == 0
        &&& self.stage != Stage::Building ==> self.transaction_id is Some
    }

    /// Whether the transaction has been frozen.
    pub open spec fn spec_is_frozen(&self) -> bool {
        self.stage != Stage::Building
    }

    /// The signatures collected so far, by the key that gave each.
    pub open spec fn spec_signatures(&self) -> Map<Seq<u8>, Seq<u8>> {
        signature_map(self.signatures@)
    }

    /// A transaction that is being built around `data`.
    pub fn new_with_data(data: D) -> (t: Transaction<D>)
        ensures
            t.wf(),
            t.data == data,
            t.stage == Stage::Building,
            t.transaction_id is None,
            t.node_account_ids@.len() == 0,
            t.max_transaction_fee is None,
            t.transaction_valid_duration is None,
            t.spec_signatures() == Map::<Seq<u8>, Seq<u8>>::empty(),
            t.chunks@.len() == 0,
    {
        Transaction {
            data,
            transaction_id: None,
            node_account_ids: Vec::new(),
            max_transaction_fee: None,
            transaction_valid_duration: None,
            signatures: Vec::new(),
            chunks: Vec::new(),
            stage: Stage::Building,
        }
    }

    /// Whether the transaction has been frozen.
    pub fn is_frozen(&self) -> (b: bool)
        ensures
            b == self.spec_is_frozen(),
    {
        !matches!(self.stage, Stage::Building)
    }

    /// Fails unless the transaction can still be changed.
    pub fn require_not_frozen(&self) -> (r: Result<(), Error>)
        ensures
            r == if self.spec_is_frozen() {
                Err::<(), Error>(Error::FrozenState)
            } else {
                Ok::<(), Error>(())
            },
    {
        if self.is_frozen() {
            Err(Error::FrozenState)
        } else {
            Ok(())
        }
    }

    /// The payload.
    pub fn data(&self) -> (data: &D)
        ensures
            *data == self.data,
    {
        &self.data
    }

    /// The identifier, once assigned.
    pub fn get_transaction_id(&self) -> (id: Option<TransactionId>)
        ensures
            id == self.transaction_id,
    {
        self.transaction_id
    }

    /// The candidate nodes, in the order in which they are tried.
    pub fn get_node_account_ids(&self) -> (ids: &Vec<AccountId>)
        ensures
            *ids == self.node_account_ids,
    {
        &self.node_account_ids
    }

    /// The chunk plan; empty where the transaction is sent whole.
    pub fn get_chunks(&self) -> (chunks: &Vec<Chunk>)
        ensures
            *chunks == self.chunks,
    {
        &self.chunks
    }

    /// Where the transaction stands in its life.
    pub fn get_stage(&self) -> (stage: Stage)
        ensures
            stage == self.stage,
    {
        self.stage
    }

    /// Sets the identifier; fails once the transaction is frozen.
    pub fn transaction_id(&mut self, id: TransactionId) -> (r: Result<(), Error>)
        ensures
            r == old(self).require_not_frozen_result(),
            *final(self) == if r is Ok {
                Transaction { transaction_id: Some(id), ..*old(self) }
            } else {
                *old(self)
            },
    {
        if self.is_frozen() {
            return Err(Error::FrozenState);
        }
        self.transaction_id = Some(id);
        Ok(())
    }

    /// Sets the candidate nodes; fails once the transaction is frozen.
    pub fn node_account_ids(&mut self, ids: Vec<AccountId>) -> (r: Result<(), Error>)
        ensures
            r == old(self).require_not_frozen_result(),
            *final(self) == if r is Ok {
                Transaction { node_account_ids: ids, ..*old(self) }
            } else {
                *old(self)
            },
    {
        if self.is_frozen() {
            return Err(Error::FrozenState);
        }
        self.node_account_ids = ids;
        Ok(())
    }

    /// Sets the most that the payer is willing to pay; fails once the
    /// transaction is frozen.
    pub fn max_transaction_fee(&mut self, fee: Hbar) -> (r: Result<(), Error>)
        ensures
            r == old(self).require_not_frozen_result(),
            *final(self) == if r is Ok {
                Transaction { max_transaction_fee: Some(fee), ..*old(self) }
            } else {
                *old(self)
            },
    {
        if self.is_frozen() {
            return Err(Error::FrozenState);
        }
        self.max_transaction_fee = Some(fee);
        Ok(())
    }

    /// Sets for how long the transaction is valid; fails once the
    /// transaction is frozen.
    pub fn transaction_valid_duration(&mut self, duration: Duration) -> (r: Result<(), Error>)
        ensures
            r == old(self).require_not_frozen_result(),
            *final(self) == if r is Ok {
                Transaction { transaction_valid_duration: Some(duration), ..*old(self) }
            } else {
                *old(self)
            },
    {
        if self.is_frozen() {
            return Err(Error::FrozenState);
        }
        self.transaction_valid_duration = Some(duration);
        Ok(())
    }

    /// What a change of a field answers: `FrozenState` once the transaction
    /// is frozen, success before.
    pub open spec fn require_not_frozen_result(&self) -> Result<(), Error> {
        if self.spec_is_frozen() {
            Err(Error::FrozenState)
        } else {
            Ok(())
        }
    }

    /// The number of keys that have signed.
    pub fn signature_count(&self) -> (n: usize)
        requires
            self.wf(),
        ensures
            n == self.spec_signatures().dom().len(),
    {
        proof {
            crate::signature::lemma_signature_count(self.signatures@);
        }
        self.signatures.len()
    }

    /// Records the signature that `public_key` gave over the frozen
    /// transaction, in place of an earlier one of the same key. Only a
    /// frozen transaction that has not been submitted takes signatures.
    pub fn sign_with(&mut self, public_key: PublicKey, signature: Vec<u8>) -> (r: Result<
        (),
        Error,
    >)
        requires
            old(self).wf(),
        ensures
            final(self).wf(),
            stage_rank(final(self).stage) >= stage_rank(old(self).stage),
            r is Ok <==> old(self).stage == Stage::Frozen,
            r matches Err(e) ==> e == Error::WrongStage && *final(self) == *old(self),
            r is Ok ==> final(self).spec_signatures() == old(self).spec_signatures().insert(
                public_key@,
                signature@,
            ) && *final(self) == (Transaction { signatures: final(self).signatures, ..*old(self) }),
    {
        if !matches!(self.stage, Stage::Frozen) {
            return Err(Error::WrongStage);
        }
        record_signature(&mut self.signatures, public_key, signature);
        Ok(())
    }

    /// Records how the submission ended: a submitted transaction becomes
    /// accepted or rejected, and stays so.
    pub fn finish(&mut self, accepted: bool) -> (r: Result<(), Error>)
        ensures
            r is Ok <==> old(self).stage == Stage::Submitted,
            r matches Err(e) ==> e == Error::WrongStage && *final(self) == *old(self),
            r is Ok ==> *final(self) == (Transaction {
                stage: if accepted {
                    Stage::Accepted
                } else {
                    Stage::Rejected
                },
                ..*old(self)
            }),
            stage_rank(final(self).stage) >= stage_rank(old(self).stage),
    {
        if !matches!(self.stage, Stage::Submitted) {
            return Err(Error::WrongStage);
        }
        self.stage = if accepted {
            Stage::Accepted
        } else {
            Stage::Rejected
        };
        Ok(())
    }
}

impl<D: TransactionData> Transaction<D> {
    /// Whether the payload's content is too large for one transaction under
    /// `policy`.
    pub open spec fn needs_chunks(&self, policy: ChunkPolicy) -> bool {
        self.data.spec_content().len() > policy.chunk_size
    }

    /// Freezes the transaction: assigns `default_transaction_id` and
    /// `node_candidates` where none were set, and plans the chunks where the
    /// payload's content exceeds one chunk. Fails, leaving the transaction as
    /// it was, where the plan would exceed the policy's chunk count. A
    /// transaction that is already frozen is left exactly as it is.
    pub fn freeze_with(
        &mut self,
        node_candidates: Vec<AccountId>,
        default_transaction_id: TransactionId,
        policy: &ChunkPolicy,
    ) -> (r: Result<(), Error>)
        requires
            old(self).wf(),
            policy.wf(),
        ensures
            final(self).wf(),
            stage_rank(final(self).stage) >= stage_rank(old(self).stage),
            old(self).spec_is_frozen() ==> r is Ok && *final(self) == *old(self),
            !old(self).spec_is_frozen() ==> {
                let content = old(self).data.spec_content();
                let required = required_chunks(content.len() as int, policy.chunk_size as int);
                let id = match old(self).transaction_id {
                    Some(id) => id,
                    None => default_transaction_id,
                };
                &&& r is Err <==> old(self).needs_chunks(*policy) && required > policy.max_chunks
                &&& r matches Err(e) ==> e == (Error::ChunkCountExceeded {
                    required: required as usize,
                    max: policy.max_chunks,
                }) && *final(self) == *old(self)
                &&& r is Ok ==> {
                    &&& final(self).stage == Stage::Frozen
                    &&& final(self).data == old(self).data
                    &&& final(self).transaction_id == Some(id)
                    &&& final(self).node_account_ids@ == if old(self).node_account_ids@.len()
                        > 0 {
                        old(self).node_account_ids@
                    } else {
                        node_candidates@
                    }
                    &&& final(self).max_transaction_fee == old(self).max_transaction_fee
                    &&& final(self).transaction_valid_duration == old(self).transaction_valid_duration
                    &&& final(self).signatures@.len() == 0
                    &&& if old(self).needs_chunks(*policy) {
                        is_plan_for(final(self).chunks@, content, id, policy.chunk_size as int)
                    } else {
                        final(self).chunks@.len() == 0
                    }
                }
            },
    {
        if self.is_frozen() {
            return Ok(());
        }
        let id = match self.transaction_id {
            Some(id) => id,
            None => default_transaction_id,
        };
        match self.data.content() {
            Some(bytes) => {
                if bytes.len() > policy.chunk_size {
                    let plan = plan_chunks(bytes.as_slice(), id, policy)?;
                    self.chunks = plan;
                }
            },
            None => {},
        }
        if self.node_account_ids.len() == 0 {
            self.node_account_ids = node_candidates;
        }
        self.transaction_id = Some(id);
        self.stage = Stage::Frozen;
        Ok(())
    }

    /// How far the collection of signatures has come: nothing signed, every
    /// signer that the payload requires signed, or something in between.
    pub open spec fn spec_signature_status(&self) -> SignatureStatus {
        if self.signatures@.len() == 0 {
            SignatureStatus::Unsigned
        } else if all_signed(self.spec_signatures(), self.data.spec_required_signers()) {
            SignatureStatus::Complete
        } else {
            SignatureStatus::Partial
        }
    }

    /// How far the collection of signatures has come.
    pub fn signature_status(&self) -> (status: SignatureStatus)
        ensures
            status == self.spec_signature_status(),
    {
        if self.signatures.len() == 0 {
            return SignatureStatus::Unsigned;
        }
        let required = self.data.required_signers();
        if has_all_signatures(&self.signatures, &required) {
            SignatureStatus::Complete
        } else {
            SignatureStatus::Partial
        }
    }

    /// Validates the checksum of every identifier of the payload against
    /// `ledger`, without any network call.
    pub fn validate_checksums(&self, ledger: &LedgerId) -> (r: Result<(), Error>)
        ensures
            r == validation_result_all(self.data.spec_entity_ids(), ledger@),
    {
        let ids = self.data.entity_ids();
        validate_checksums(&ids, ledger)
    }

    /// Starts the execution of a frozen transaction: validates the payload's
    /// identifiers against `ledger` and, where they pass, hands out the
    /// submission that walks the candidate nodes. A checksum that does not
    /// match fails here, before anything is sent, and leaves the transaction
    /// frozen.
    pub fn execute(&mut self, ledger: &LedgerId, max_attempts: usize, backoff: Vec<u64>) -> (r:
        Result<Submission, Error>)
        requires
            old(self).wf(),
        ensures
            final(self).wf(),
            stage_rank(final(self).stage) >= stage_rank(old(self).stage),
            r is Ok <==> old(self).stage == Stage::Frozen && validation_result_all(
                old(self).data.spec_entity_ids(),
                ledger@,
            ) is Ok && old(self).node_account_ids@.len() > 0 && max_attempts > 0,
            r matches Ok(submission) ==> submission.wf() && submission@ == (SubmissionView {
                node_count: old(self).node_account_ids@.len() as int,
                max_attempts: max_attempts as int,
                backoff: backoff@,
                failures: Seq::empty(),
            }) && *final(self) == (Transaction { stage: Stage::Submitted, ..*old(self) }),
            r matches Err(e) ==> *final(self) == *old(self) && e == if old(self).stage
                != Stage::Frozen {
                Error::WrongStage
            } else if validation_result_all(old(self).data.spec_entity_ids(), ledger@) is Err {
                validation_result_all(old(self).data.spec_entity_ids(), ledger@)->Err_0
            } else {
                Error::NoAttemptPossible
            },
    {
        if !matches!(self.stage, Stage::Frozen) {
            return Err(Error::WrongStage);
        }
        match self.validate_checksums(ledger) {
            Err(e) => {
                return Err(e);
            },
            Ok(_) => {},
        }
        match Submission::new(self.node_account_ids.len(), max_attempts, backoff) {
            Some(submission) => {
                self.stage = Stage::Submitted;
                Ok(submission)
            },
            None => Err(Error::NoAttemptPossible),
        }
    }
}

} // verus!
