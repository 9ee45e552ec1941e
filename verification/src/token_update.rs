//! The transaction that updates a token.

use vstd::prelude::*;
use crate::entity_id::{
    optional_entity_ids, push_optional_id, validate_checksums, validation_result_all, AccountId,
    EntityId, LedgerId, TokenId,
};
use crate::error::Error;
use crate::hbar::Duration;
use crate::key::{
    copy_key, key_signers, key_view, key_views, push_key_signers, Key, PublicKey,
};
use crate::transaction::{Transaction, TransactionData};
use crate::transaction_id::Timestamp;
use crate::wire::{
    RpcMethod, SchedulableTransactionBodyData, TokenUpdateTransactionBody, TransactionBodyData,
};

verus! {

/// At consensus, updates an already created token to the given values.
///
/// If no value is given for a field, that field is left unchanged. For an
/// immutable token (a token without an admin key), only the expiry may be
/// updated; setting any other field makes the network refuse the
/// transaction.
pub type TokenUpdateTransaction = Transaction<TokenUpdateTransactionData>;

/// The payload of a [`TokenUpdateTransaction`].
#[derive(Debug)]
pub struct TokenUpdateTransactionData {
    /// The token to be updated.
    pub token_id: Option<TokenId>,
    /// The publicly visible name of the token.
    pub token_name: String,
    /// The publicly visible token symbol.
    pub token_symbol: String,
    /// The account which will act as a treasury for the token.
    pub treasury_account_id: Option<AccountId>,
    /// The key which can perform update and delete operations on the token.
    pub admin_key: Option<Key>,
    /// The key which can grant or revoke KYC of an account for the token's
    /// transactions.
    pub kyc_key: Option<Key>,
    /// The key which can sign to freeze or unfreeze an account for token
    /// transactions.
    pub freeze_key: Option<Key>,
    /// The key which can wipe the token balance of an account.
    pub wipe_key: Option<Key>,
    /// The key which can change the supply of a token.
    pub supply_key: Option<Key>,
    /// An account which will be automatically charged to renew the token's
    /// expiration, at each auto renew period.
    pub auto_renew_account_id: Option<AccountId>,
    /// The interval at which the auto renew account will be charged to
    /// extend the token's expiry.
    pub auto_renew_period: Option<Duration>,
    /// The time at which the token should expire.
    pub expiration_time: Option<Timestamp>,
    /// The memo associated with the token.
    pub token_memo: String,
    /// The key which can change the token's custom fee schedule.
    pub fee_schedule_key: Option<Key>,
    /// The key which can pause and unpause the token.
    pub pause_key: Option<Key>,
}

impl Default for TokenUpdateTransactionData {
    fn default() -> (data: Self)
        ensures
            data.is_default(),
    {
        TokenUpdateTransactionData {
            token_id: None,
            token_name: String::new(),
            token_symbol: String::new(),
            treasury_account_id: None,
            admin_key: None,
            kyc_key: None,
            freeze_key: None,
            wipe_key: None,
            supply_key: None,
            auto_renew_account_id: None,
            auto_renew_period: None,
            expiration_time: None,
            token_memo: String::new(),
            fee_schedule_key: None,
            pause_key: None,
        }
    }
}

impl TokenUpdateTransaction {
    /// A transaction whose payload changes nothing yet.
    pub fn new() -> (t: Self)
        ensures
            t.wf(),
            !t.spec_is_frozen(),
            t.data.is_default(),
            t.transaction_id is None,
            t.node_account_ids@.len() == 0,
    {
        Transaction::new_with_data(TokenUpdateTransactionData::default())
    }

    /// Returns the token to be updated.
    #[must_use]
    pub fn get_token_id(&self) -> (v: Option<TokenId>)
        ensures
            v == self.data.token_id,
    {
        self.data.token_id
    }

    /// Sets the token to be updated. Fails once the transaction is frozen.
    pub fn token_id(&mut self, token_id: TokenId) -> (r: Result<(), Error>)
        ensures
            r == old(self).require_not_frozen_result(),
            *final(self) == if r is Ok {
                Transaction {
                    data: (TokenUpdateTransactionData {
                        token_id: Some(token_id),
                        ..old(self).data
                    }),
                    ..*old(self)
                }
            } else {
                *old(self)
            },
    {
        if self.is_frozen() {
            return Err(Error::FrozenState);
        }
        self.data.token_id = Some(token_id);
        Ok(())
    }

    /// Returns the new publicly visible name of the token.
    #[must_use]
    pub fn get_token_name(&self) -> (v: &str)
        ensures
            v@ == self.data.token_name@,
    {
        self.data.token_name.as_str()
    }

    /// Sets the new publicly visible name of the token. Fails once the
    /// transaction is frozen.
    pub fn token_name(&mut self, token_name: String) -> (r: Result<(), Error>)
        ensures
            r == old(self).require_not_frozen_result(),
            *final(self) == if r is Ok {
                Transaction {
                    data: (TokenUpdateTransactionData {
                        token_name: token_name,
                        ..old(self).data
                    }),
                    ..*old(self)
                }
            } else {
                *old(self)
            },
    {
        if self.is_frozen() {
            return Err(Error::FrozenState);
        }
        self.data.token_name = token_name;
        Ok(())
    }

    /// Returns the new publicly visible token symbol.
    #[must_use]
    pub fn get_token_symbol(&self) -> (v: &str)
        ensures
            v@ == self.data.token_symbol@,
    {
        self.data.token_symbol.as_str()
    }

    /// Sets the new publicly visible token symbol. Fails once the transaction
    /// is frozen.
    pub fn token_symbol(&mut self, token_symbol: String) -> (r: Result<(), Error>)
        ensures
            r == old(self).require_not_frozen_result(),
            *final(self) == if r is Ok {
                Transaction {
                    data: (TokenUpdateTransactionData {
                        token_symbol: token_symbol,
                        ..old(self).data
                    }),
                    ..*old(self)
                }
            } else {
                *old(self)
            },
    {
        if self.is_frozen() {
            return Err(Error::FrozenState);
        }
        self.data.token_symbol = token_symbol;
        Ok(())
    }

    /// Returns the new account which will act as a treasury for the token.
    #[must_use]
    pub fn get_treasury_account_id(&self) -> (v: Option<AccountId>)
        ensures
            v == self.data.treasury_account_id,
    {
        self.data.treasury_account_id
    }

    /// Sets the new account which will act as a treasury for the token. Fails
    /// once the transaction is frozen.
    pub fn treasury_account_id(&mut self, treasury_account_id: AccountId) -> (r: Result<(), Error>)
        ensures
            r == old(self).require_not_frozen_result(),
            *final(self) == if r is Ok {
                Transaction {
                    data: (TokenUpdateTransactionData {
                        treasury_account_id: Some(treasury_account_id),
                        ..old(self).data
                    }),
                    ..*old(self)
                }
            } else {
                *old(self)
            },
    {
        if self.is_frozen() {
            return Err(Error::FrozenState);
        }
        self.data.treasury_account_id = Some(treasury_account_id);
        Ok(())
    }

    /// Returns the new key which can perform update and delete operations on
    /// the token.
    #[must_use]
    pub fn get_admin_key(&self) -> (v: Option<&Key>)
        ensures
            v matches Some(x) ==> self.data.admin_key == Some(*x),
            v is None <==> self.data.admin_key is None,
    {
        match &self.data.admin_key {
            Some(x) => Some(x),
            None => None,
        }
    }

    /// Sets the new key which can perform update and delete operations on the
    /// token. Fails once the transaction is frozen.
    pub fn admin_key(&mut self, admin_key: Key) -> (r: Result<(), Error>)
        ensures
            r == old(self).require_not_frozen_result(),
            *final(self) == if r is Ok {
                Transaction {
                    data: (TokenUpdateTransactionData {
                        admin_key: Some(admin_key),
                        ..old(self).data
                    }),
                    ..*old(self)
                }
            } else {
                *old(self)
            },
    {
        if self.is_frozen() {
            return Err(Error::FrozenState);
        }
        self.data.admin_key = Some(admin_key);
        Ok(())
    }

    /// Returns the new key which can grant or revoke KYC of an account for the
    /// token's transactions.
    #[must_use]
    pub fn get_kyc_key(&self) -> (v: Option<&Key>)
        ensures
            v matches Some(x) ==> self.data.kyc_key == Some(*x),
            v is None <==> self.data.kyc_key is None,
    {
        match &self.data.kyc_key {
            Some(x) => Some(x),
            None => None,
        }
    }

    /// Sets the new key which can grant or revoke KYC of an account for the
    /// token's transactions. Fails once the transaction is frozen.
    pub fn kyc_key(&mut self, kyc_key: Key) -> (r: Result<(), Error>)
        ensures
            r == old(self).require_not_frozen_result(),
            *final(self) == if r is Ok {
                Transaction {
                    data: (TokenUpdateTransactionData {
                        kyc_key: Some(kyc_key),
                        ..old(self).data
                    }),
                    ..*old(self)
                }
            } else {
                *old(self)
            },
    {
        if self.is_frozen() {
            return Err(Error::FrozenState);
        }
        self.data.kyc_key = Some(kyc_key);
        Ok(())
    }

    /// Returns the new key which can sign to freeze or unfreeze an account for
    /// token transactions.
    #[must_use]
    pub fn get_freeze_key(&self) -> (v: Option<&Key>)
        ensures
            v matches Some(x) ==> self.data.freeze_key == Some(*x),
            v is None <==> self.data.freeze_key is None,
    {
        match &self.data.freeze_key {
            Some(x) => Some(x),
            None => None,
        }
    }

    /// Sets the new key which can sign to freeze or unfreeze an account for
    /// token transactions. Fails once the transaction is frozen.
    pub fn freeze_key(&mut self, freeze_key: Key) -> (r: Result<(), Error>)
        ensures
            r == old(self).require_not_frozen_result(),
            *final(self) == if r is Ok {
                Transaction {
                    data: (TokenUpdateTransactionData {
                        freeze_key: Some(freeze_key),
                        ..old(self).data
                    }),
                    ..*old(self)
                }
            } else {
                *old(self)
            },
    {
        if self.is_frozen() {
            return Err(Error::FrozenState);
        }
        self.data.freeze_key = Some(freeze_key);
        Ok(())
    }

    /// Returns the new key which can wipe the token balance of an account.
    #[must_use]
    pub fn get_wipe_key(&self) -> (v: Option<&Key>)
        ensures
            v matches Some(x) ==> self.data.wipe_key == Some(*x),
            v is None <==> self.data.wipe_key is None,
    {
        match &self.data.wipe_key {
            Some(x) => Some(x),
            None => None,
        }
    }

    /// Sets the new key which can wipe the token balance of an account. Fails
    /// once the transaction is frozen.
    pub fn wipe_key(&mut self, wipe_key: Key) -> (r: Result<(), Error>)
        ensures
            r == old(self).require_not_frozen_result(),
            *final(self) == if r is Ok {
                Transaction {
                    data: (TokenUpdateTransactionData {
                        wipe_key: Some(wipe_key),
                        ..old(self).data
                    }),
                    ..*old(self)
                }
            } else {
                *old(self)
            },
    {
        if self.is_frozen() {
            return Err(Error::FrozenState);
        }
        self.data.wipe_key = Some(wipe_key);
        Ok(())
    }

    /// Returns the new key which can change the supply of the token.
    #[must_use]
    pub fn get_supply_key(&self) -> (v: Option<&Key>)
        ensures
            v matches Some(x) ==> self.data.supply_key == Some(*x),
            v is None <==> self.data.supply_key is None,
    {
        match &self.data.supply_key {
            Some(x) => Some(x),
            None => None,
        }
    }

    /// Sets the new key which can change the supply of the token. Fails once
    /// the transaction is frozen.
    pub fn supply_key(&mut self, supply_key: Key) -> (r: Result<(), Error>)
        ensures
            r == old(self).require_not_frozen_result(),
            *final(self) == if r is Ok {
                Transaction {
                    data: (TokenUpdateTransactionData {
                        supply_key: Some(supply_key),
                        ..old(self).data
                    }),
                    ..*old(self)
                }
            } else {
                *old(self)
            },
    {
        if self.is_frozen() {
            return Err(Error::FrozenState);
        }
        self.data.supply_key = Some(supply_key);
        Ok(())
    }

    /// Returns the new account which will be automatically charged to renew the
    /// token's expiration.
    #[must_use]
    pub fn get_auto_renew_account_id(&self) -> (v: Option<AccountId>)
        ensures
            v == self.data.auto_renew_account_id,
    {
        self.data.auto_renew_account_id
    }

    /// Sets the new account which will be automatically charged to renew the
    /// token's expiration. Fails once the transaction is frozen.
    pub fn auto_renew_account_id(&mut self, auto_renew_account_id: AccountId) -> (r: Result<(), Error>)
        ensures
            r == old(self).require_not_frozen_result(),
            *final(self) == if r is Ok {
                Transaction {
                    data: (TokenUpdateTransactionData {
                        auto_renew_account_id: Some(auto_renew_account_id),
                        ..old(self).data
                    }),
                    ..*old(self)
                }
            } else {
                *old(self)
            },
    {
        if self.is_frozen() {
            return Err(Error::FrozenState);
        }
        self.data.auto_renew_account_id = Some(auto_renew_account_id);
        Ok(())
    }

    /// Returns the new interval at which the auto renew account will be charged
    /// to extend the token's expiry.
    #[must_use]
    pub fn get_auto_renew_period(&self) -> (v: Option<Duration>)
        ensures
            v == self.data.auto_renew_period,
    {
        self.data.auto_renew_period
    }

    /// Sets the new interval at which the auto renew account will be charged to
    /// extend the token's expiry. Fails once the transaction is frozen.
    pub fn auto_renew_period(&mut self, auto_renew_period: Duration) -> (r: Result<(), Error>)
        ensures
            r == old(self).require_not_frozen_result(),
            *final(self) == if r is Ok {
                Transaction {
                    data: (TokenUpdateTransactionData {
                        auto_renew_period: Some(auto_renew_period),
                        ..old(self).data
                    }),
                    ..*old(self)
                }
            } else {
                *old(self)
            },
    {
        if self.is_frozen() {
            return Err(Error::FrozenState);
        }
        self.data.auto_renew_period = Some(auto_renew_period);
        Ok(())
    }

    /// Returns the new time at which the token should expire.
    #[must_use]
    pub fn get_expiration_time(&self) -> (v: Option<Timestamp>)
        ensures
            v == self.data.expiration_time,
    {
        self.data.expiration_time
    }

    /// Sets the new time at which the token should expire, and clears the auto
    /// renew period. Fails once the transaction is frozen.
    pub fn expiration_time(&mut self, expiration_time: Timestamp) -> (r: Result<(), Error>)
        ensures
            r == old(self).require_not_frozen_result(),
            *final(self) == if r is Ok {
                Transaction {
                    data: (TokenUpdateTransactionData {
                        expiration_time: Some(expiration_time),
                        auto_renew_period: None,
                        ..old(self).data
                    }),
                    ..*old(self)
                }
            } else {
                *old(self)
            },
    {
        if self.is_frozen() {
            return Err(Error::FrozenState);
        }
        self.data.expiration_time = Some(expiration_time);
        self.data.auto_renew_period = None;
        Ok(())
    }

    /// Returns the new memo associated with the token.
    #[must_use]
    pub fn get_token_memo(&self) -> (v: &str)
        ensures
            v@ == self.data.token_memo@,
    {
        self.data.token_memo.as_str()
    }

    /// Sets the new memo associated with the token. Fails once the transaction
    /// is frozen.
    pub fn token_memo(&mut self, memo: String) -> (r: Result<(), Error>)
        ensures
            r == old(self).require_not_frozen_result(),
            *final(self) == if r is Ok {
                Transaction {
                    data: (TokenUpdateTransactionData {
                        token_memo: memo,
                        ..old(self).data
                    }),
                    ..*old(self)
                }
            } else {
                *old(self)
            },
    {
        if self.is_frozen() {
            return Err(Error::FrozenState);
        }
        self.data.token_memo = memo;
        Ok(())
    }

    /// Returns the new key which can change the token's custom fee schedule.
    #[must_use]
    pub fn get_fee_schedule_key(&self) -> (v: Option<&Key>)
        ensures
            v matches Some(x) ==> self.data.fee_schedule_key == Some(*x),
            v is None <==> self.data.fee_schedule_key is None,
    {
        match &self.data.fee_schedule_key {
            Some(x) => Some(x),
            None => None,
        }
    }

    /// Sets the new key which can change the token's custom fee schedule. Fails
    /// once the transaction is frozen.
    pub fn fee_schedule_key(&mut self, fee_schedule_key: Key) -> (r: Result<(), Error>)
        ensures
            r == old(self).require_not_frozen_result(),
            *final(self) == if r is Ok {
                Transaction {
                    data: (TokenUpdateTransactionData {
                        fee_schedule_key: Some(fee_schedule_key),
                        ..old(self).data
                    }),
                    ..*old(self)
                }
            } else {
                *old(self)
            },
    {
        if self.is_frozen() {
            return Err(Error::FrozenState);
        }
        self.data.fee_schedule_key = Some(fee_schedule_key);
        Ok(())
    }

    /// Returns the new key which can pause and unpause the token.
    #[must_use]
    pub fn get_pause_key(&self) -> (v: Option<&Key>)
        ensures
            v matches Some(x) ==> self.data.pause_key == Some(*x),
            v is None <==> self.data.pause_key is None,
    {
        match &self.data.pause_key {
            Some(x) => Some(x),
            None => None,
        }
    }

    /// Sets the new key which can pause and unpause the token. Fails once the
    /// transaction is frozen.
    pub fn pause_key(&mut self, pause_key: Key) -> (r: Result<(), Error>)
        ensures
            r == old(self).require_not_frozen_result(),
            *final(self) == if r is Ok {
                Transaction {
                    data: (TokenUpdateTransactionData {
                        pause_key: Some(pause_key),
                        ..old(self).data
                    }),
                    ..*old(self)
                }
            } else {
                *old(self)
            },
    {
        if self.is_frozen() {
            return Err(Error::FrozenState);
        }
        self.data.pause_key = Some(pause_key);
        Ok(())
    }
}

impl TokenUpdateTransactionData {
    /// The payload of a new transaction: nothing set.
    pub open spec fn is_default(&self) -> bool {
        &&& self.token_id is None
        &&& self.token_name@.len() == 0
        &&& self.token_symbol@.len() == 0
        &&& self.treasury_account_id is None
        &&& self.admin_key is None
        &&& self.kyc_key is None
        &&& self.freeze_key is None
        &&& self.wipe_key is None
        &&& self.supply_key is None
        &&& self.auto_renew_account_id is None
        &&& self.auto_renew_period is None
        &&& self.expiration_time is None
        &&& self.token_memo@.len() == 0
        &&& self.fee_schedule_key is None
        &&& self.pause_key is None
    }

    /// Whether `body` is the wire body of the payload: every field as it was
    /// set, and the memo always present.
    pub open spec fn is_protobuf(&self, body: TokenUpdateTransactionBody) -> bool {
        &&& body.token == self.token_id
        &&& body.name@ == self.token_name@
        &&& body.symbol@ == self.token_symbol@
        &&& body.treasury == self.treasury_account_id
        &&& key_view(body.admin_key) == key_view(self.admin_key)
        &&& key_view(body.kyc_key) == key_view(self.kyc_key)
        &&& key_view(body.freeze_key) == key_view(self.freeze_key)
        &&& key_view(body.wipe_key) == key_view(self.wipe_key)
        &&& key_view(body.supply_key) == key_view(self.supply_key)
        &&& key_view(body.fee_schedule_key) == key_view(self.fee_schedule_key)
        &&& key_view(body.pause_key) == key_view(self.pause_key)
        &&& body.auto_renew_account == self.auto_renew_account_id
        &&& body.auto_renew_period == self.auto_renew_period
        &&& body.expiry == self.expiration_time
        &&& body.memo matches Some(memo)
        &&& memo@ == self.token_memo@
    }

    /// Whether the payload is what `body` holds: every field as the wire
    /// has it, and an empty memo where the wire has none.
    pub open spec fn is_from_protobuf(&self, body: TokenUpdateTransactionBody) -> bool {
        &&& self.token_id == body.token
        &&& self.token_name == body.name
        &&& self.token_symbol == body.symbol
        &&& self.treasury_account_id == body.treasury
        &&& self.admin_key == body.admin_key
        &&& self.kyc_key == body.kyc_key
        &&& self.freeze_key == body.freeze_key
        &&& self.wipe_key == body.wipe_key
        &&& self.supply_key == body.supply_key
        &&& self.fee_schedule_key == body.fee_schedule_key
        &&& self.pause_key == body.pause_key
        &&& self.auto_renew_account_id == body.auto_renew_account
        &&& self.auto_renew_period == body.auto_renew_period
        &&& self.expiration_time == body.expiry
        &&& match body.memo {
            Some(memo) => self.token_memo == memo,
            None => self.token_memo@.len() == 0,
        }
    }

    /// Whether both payloads hold the same values.
    pub open spec fn same_values(&self, other: Self) -> bool {
        &&& self.token_id == other.token_id
        &&& self.token_name@ == other.token_name@
        &&& self.token_symbol@ == other.token_symbol@
        &&& self.treasury_account_id == other.treasury_account_id
        &&& key_view(self.admin_key) == key_view(other.admin_key)
        &&& key_view(self.kyc_key) == key_view(other.kyc_key)
        &&& key_view(self.freeze_key) == key_view(other.freeze_key)
        &&& key_view(self.wipe_key) == key_view(other.wipe_key)
        &&& key_view(self.supply_key) == key_view(other.supply_key)
        &&& key_view(self.fee_schedule_key) == key_view(other.fee_schedule_key)
        &&& key_view(self.pause_key) == key_view(other.pause_key)
        &&& self.auto_renew_account_id == other.auto_renew_account_id
        &&& self.auto_renew_period == other.auto_renew_period
        &&& self.expiration_time == other.expiration_time
        &&& self.token_memo@ == other.token_memo@
    }

    /// A payload that is written to a wire body and read back holds the
    /// same values as before.
    pub proof fn lemma_wire_round_trip(self, body: TokenUpdateTransactionBody, back: Self)
        requires
            self.is_protobuf(body),
            back.is_from_protobuf(body),
        ensures
            back.same_values(self),
    {
    }

    /// The wire body of the payload.
    pub fn to_protobuf(&self) -> (body: TokenUpdateTransactionBody)
        ensures
            self.is_protobuf(body),
    {
        TokenUpdateTransactionBody {
            token: self.token_id,
            name: self.token_name.clone(),
            symbol: self.token_symbol.clone(),
            treasury: self.treasury_account_id,
            admin_key: copy_key(&self.admin_key),
            kyc_key: copy_key(&self.kyc_key),
            freeze_key: copy_key(&self.freeze_key),
            wipe_key: copy_key(&self.wipe_key),
            supply_key: copy_key(&self.supply_key),
            expiry: self.expiration_time,
            auto_renew_account: self.auto_renew_account_id,
            auto_renew_period: self.auto_renew_period,
            memo: Some(self.token_memo.clone()),
            fee_schedule_key: copy_key(&self.fee_schedule_key),
            pause_key: copy_key(&self.pause_key),
        }
    }

    /// The payload that a wire body holds. Every body can be read.
    pub fn from_protobuf(body: TokenUpdateTransactionBody) -> (r: Result<Self, Error>)
        ensures
            r matches Ok(data) && data.is_from_protobuf(body),
    {
        let token_memo = match body.memo {
            Some(memo) => memo,
            None => String::new(),
        };
        Ok(
            TokenUpdateTransactionData {
                token_id: body.token,
                token_name: body.name,
                token_symbol: body.symbol,
                treasury_account_id: body.treasury,
                admin_key: body.admin_key,
                kyc_key: body.kyc_key,
                freeze_key: body.freeze_key,
                wipe_key: body.wipe_key,
                supply_key: body.supply_key,
                auto_renew_account_id: body.auto_renew_account,
                auto_renew_period: body.auto_renew_period,
                expiration_time: body.expiry,
                token_memo,
                fee_schedule_key: body.fee_schedule_key,
                pause_key: body.pause_key,
            },
        )
    }

    /// Validates the checksums of the token, of the auto renew account and
    /// of the treasury account, in that order, against `ledger`.
    pub fn validate_checksums(&self, ledger: &LedgerId) -> (r: Result<(), Error>)
        ensures
            r == validation_result_all(self.spec_entity_ids(), ledger@),
    {
        let ids = self.entity_ids();
        validate_checksums(&ids, ledger)
    }

    /// The body of the payload for a scheduled transaction.
    pub fn to_schedulable_transaction_data_protobuf(&self) -> (body:
        SchedulableTransactionBodyData)
        ensures
            body matches SchedulableTransactionBodyData::TokenUpdate(b) && self.is_protobuf(b),
    {
        SchedulableTransactionBodyData::TokenUpdate(self.to_protobuf())
    }
}

impl TransactionData for TokenUpdateTransactionData {
    open spec fn spec_entity_ids(&self) -> Seq<EntityId> {
        optional_entity_ids(self.token_id) + optional_entity_ids(self.auto_renew_account_id)
            + optional_entity_ids(self.treasury_account_id)
    }

    open spec fn spec_rpc_method(&self) -> RpcMethod {
        RpcMethod::TokenUpdate
    }

    open spec fn spec_content(&self) -> Seq<u8> {
        Seq::empty()
    }

    open spec fn is_wire_body(&self, body: TransactionBodyData) -> bool {
        body matches TransactionBodyData::TokenUpdate(b) && self.is_protobuf(b)
    }

    fn entity_ids(&self) -> (ids: Vec<EntityId>) {
        let mut ids: Vec<EntityId> = Vec::new();
        push_optional_id(&mut ids, &self.token_id);
        push_optional_id(&mut ids, &self.auto_renew_account_id);
        push_optional_id(&mut ids, &self.treasury_account_id);
        assert(ids@ =~= self.spec_entity_ids());
        ids
    }

    open spec fn spec_required_signers(&self) -> Seq<Seq<u8>> {
        key_signers(self.admin_key)
    }

    fn required_signers(&self) -> (keys: Vec<PublicKey>) {
        let mut keys: Vec<PublicKey> = Vec::new();
        push_key_signers(&mut keys, &self.admin_key);
        assert(key_views(keys@) =~= self.spec_required_signers());
        keys
    }

    fn rpc_method(&self) -> (method: RpcMethod) {
        RpcMethod::TokenUpdate
    }

    fn content(&self) -> (content: Option<&Vec<u8>>) {
        None
    }

    fn to_transaction_data_protobuf(&self) -> (body: TransactionBodyData) {
        TransactionBodyData::TokenUpdate(self.to_protobuf())
    }
}

} // verus!
