//! The transaction that marks an account as deleted and moves its remaining
//! hbars to another account.

use vstd::prelude::*;
use crate::entity_id::{
    address_entity_ids, push_address_ids, validate_checksums, validation_result_all,
    AccountAddress, EntityId, LedgerId,
};
use crate::error::Error;
use crate::key::{key_views, PublicKey};
use crate::transaction::{Transaction, TransactionData};
use crate::wire::{CryptoDeleteTransactionBody, RpcMethod, TransactionBodyData};

verus! {

/// Marks an account as deleted, moving all its current hbars to another
/// account. The account stays in the ledger, marked as deleted, until it
/// expires; transfers into a deleted account fail.
pub type AccountDeleteTransaction = Transaction<AccountDeleteTransactionData>;

/// The payload of an [`AccountDeleteTransaction`].
#[derive(Clone, Copy, Debug)]
pub struct AccountDeleteTransactionData {
    /// The account which will receive all remaining hbars.
    pub transfer_account_id: Option<AccountAddress>,
    /// The account which should be deleted.
    pub delete_account_id: Option<AccountAddress>,
}

impl Default for AccountDeleteTransactionData {
    fn default() -> (data: Self)
        ensures
            data == (AccountDeleteTransactionData {
                transfer_account_id: None,
                delete_account_id: None,
            }),
    {
        AccountDeleteTransactionData { transfer_account_id: None, delete_account_id: None }
    }
}

impl AccountDeleteTransaction {
    /// A transaction that names no account yet.
    pub fn new() -> (t: Self)
        ensures
            t.wf(),
            !t.spec_is_frozen(),
            t.data == (AccountDeleteTransactionData {
                transfer_account_id: None,
                delete_account_id: None,
            }),
            t.transaction_id is None,
            t.node_account_ids@.len() == 0,
    {
        Transaction::new_with_data(
            AccountDeleteTransactionData { transfer_account_id: None, delete_account_id: None },
        )
    }

    /// Returns the account which should be deleted.
    #[must_use]
    pub fn get_delete_account_id(&self) -> (v: Option<AccountAddress>)
        ensures
            v == self.data.delete_account_id,
    {
        self.data.delete_account_id
    }

    /// Sets the account which should be deleted. Fails once the transaction is
    /// frozen.
    pub fn delete_account_id(&mut self, id: AccountAddress) -> (r: Result<(), Error>)
        ensures
            r == old(self).require_not_frozen_result(),
            *final(self) == if r is Ok {
                Transaction {
                    data: (AccountDeleteTransactionData {
                        delete_account_id: Some(id),
                        ..old(self).data
                    }),
                    ..*old(self)
                }
            } else {
                *old(self)
            },
    {
        if self.is_frozen() {
            return Err(Error::FrozenState);
        }
        self.data.delete_account_id = Some(id);
        Ok(())
    }

    /// Returns the account which will receive all remaining hbars.
    #[must_use]
    pub fn get_transfer_account_id(&self) -> (v: Option<AccountAddress>)
        ensures
            v == self.data.transfer_account_id,
    {
        self.data.transfer_account_id
    }

    /// Sets the account which will receive all remaining hbars. Fails once the
    /// transaction is frozen.
    pub fn transfer_account_id(&mut self, id: AccountAddress) -> (r: Result<(), Error>)
        ensures
            r == old(self).require_not_frozen_result(),
            *final(self) == if r is Ok {
                Transaction {
                    data: (AccountDeleteTransactionData {
                        transfer_account_id: Some(id),
                        ..old(self).data
                    }),
                    ..*old(self)
                }
            } else {
                *old(self)
            },
    {
        if self.is_frozen() {
            return Err(Error::FrozenState);
        }
        self.data.transfer_account_id = Some(id);
        Ok(())
    }
}

impl AccountDeleteTransactionData {
    /// The wire body: both accounts, as they were set.
    pub open spec fn spec_to_protobuf(&self) -> CryptoDeleteTransactionBody {
        CryptoDeleteTransactionBody {
            transfer_account_id: self.transfer_account_id,
            delete_account_id: self.delete_account_id,
        }
    }

    /// The wire body of the payload.
    pub fn to_protobuf(&self) -> (body: CryptoDeleteTransactionBody)
        ensures
            body == self.spec_to_protobuf(),
    {
        CryptoDeleteTransactionBody {
            transfer_account_id: self.transfer_account_id,
            delete_account_id: self.delete_account_id,
        }
    }

    /// The payload that a wire body holds.
    pub fn from_protobuf(body: CryptoDeleteTransactionBody) -> (data: Self)
        ensures
            data.spec_to_protobuf() == body,
    {
        AccountDeleteTransactionData {
            transfer_account_id: body.transfer_account_id,
            delete_account_id: body.delete_account_id,
        }
    }

    /// Validates the checksums of the receiving account and of the account
    /// to delete, in that order, against `ledger`.
    pub fn validate_checksums(&self, ledger: &LedgerId) -> (r: Result<(), Error>)
        ensures
            r == validation_result_all(self.spec_entity_ids(), ledger@),
    {
        let ids = self.entity_ids();
        validate_checksums(&ids, ledger)
    }
}

impl TransactionData for AccountDeleteTransactionData {
    open spec fn spec_entity_ids(&self) -> Seq<EntityId> {
        address_entity_ids(self.transfer_account_id) + address_entity_ids(self.delete_account_id)
    }

    open spec fn spec_rpc_method(&self) -> RpcMethod {
        RpcMethod::CryptoDelete
    }

    open spec fn spec_content(&self) -> Seq<u8> {
        Seq::empty()
    }

    open spec fn is_wire_body(&self, body: TransactionBodyData) -> bool {
        body == TransactionBodyData::CryptoDelete(self.spec_to_protobuf())
    }

    fn entity_ids(&self) -> (ids: Vec<EntityId>) {
        let mut ids: Vec<EntityId> = Vec::new();
        push_address_ids(&mut ids, &self.transfer_account_id);
        push_address_ids(&mut ids, &self.delete_account_id);
        assert(ids@ =~= self.spec_entity_ids());
        ids
    }

    open spec fn spec_required_signers(&self) -> Seq<Seq<u8>> {
        Seq::empty()
    }

    fn required_signers(&self) -> (keys: Vec<PublicKey>) {
        let keys: Vec<PublicKey> = Vec::new();
        assert(key_views(keys@) =~= self.spec_required_signers());
        keys
    }

    fn rpc_method(&self) -> (method: RpcMethod) {
        RpcMethod::CryptoDelete
    }

    fn content(&self) -> (content: Option<&Vec<u8>>) {
        None
    }

    fn to_transaction_data_protobuf(&self) -> (body: TransactionBodyData) {
        TransactionBodyData::CryptoDelete(self.to_protobuf())
    }
}

} // verus!
