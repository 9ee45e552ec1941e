//! The transaction that creates an account.

use vstd::prelude::*;
use crate::entity_id::{
    optional_entity_ids, push_optional_id, validate_checksums, validation_result_all, AccountId,
    EntityId, LedgerId,
};
use crate::error::Error;
use crate::hbar::{Duration, Hbar, SECONDS_PER_DAY};
use crate::key::{
    copy_key, is_key_length, key_signers, key_view, key_views, push_key_signers, Key, PublicKey,
};
use crate::transaction::{Transaction, TransactionData};
use crate::wire::{
    CryptoCreateTransactionBody, RpcMethod, SchedulableTransactionBodyData, TransactionBodyData,
    WireStakedId,
};

verus! {

/// The number of days after which a new account renews itself, unless set
/// otherwise.
pub const DEFAULT_AUTO_RENEW_DAYS: i64 = 90;

/// The length of an EVM address.
pub const EVM_ADDRESS_LENGTH: usize = 20;

/// What an account stakes to: another account, or a node.
#[derive(Clone, Copy, Debug, PartialEq, Eq)]
pub enum StakedId {
    AccountId(AccountId),
    NodeId(u64),
}

impl StakedId {
    /// The account staked to, if it is an account.
    pub fn to_account_id(self) -> (id: Option<AccountId>)
        ensures
            id == match self {
                StakedId::AccountId(a) => Some(a),
                StakedId::NodeId(_) => None,
            },
    {
        match self {
            StakedId::AccountId(a) => Some(a),
            StakedId::NodeId(_) => None,
        }
    }

    /// The node staked to, if it is a node.
    pub fn to_node_id(self) -> (id: Option<u64>)
        ensures
            id == match self {
                StakedId::NodeId(n) => Some(n),
                StakedId::AccountId(_) => None,
            },
    {
        match self {
            StakedId::NodeId(n) => Some(n),
            StakedId::AccountId(_) => None,
        }
    }
}

/// The wire form of what an account stakes to. A node's number goes onto the
/// wire as the signed integer with the same 64 bits.
pub open spec fn staked_id_to_wire(id: Option<StakedId>) -> Option<WireStakedId> {
    match id {
        None => None,
        Some(StakedId::AccountId(a)) => Some(WireStakedId::StakedAccountId(a)),
        Some(StakedId::NodeId(n)) => Some(WireStakedId::StakedNodeId(n as i64)),
    }
}

/// What the wire form of a staking target stands for.
pub open spec fn staked_id_from_wire(id: Option<WireStakedId>) -> Option<StakedId> {
    match id {
        None => None,
        Some(WireStakedId::StakedAccountId(a)) => Some(StakedId::AccountId(a)),
        Some(WireStakedId::StakedNodeId(n)) => Some(StakedId::NodeId(n as u64)),
    }
}

/// The identifiers in a staking target whose checksum is validated.
pub open spec fn staked_entity_ids(id: Option<StakedId>) -> Seq<EntityId> {
    match id {
        Some(StakedId::AccountId(a)) => seq![a],
        _ => Seq::empty(),
    }
}

/// The bytes of an optional alias key; none where there is no key.
pub open spec fn alias_bytes(alias: Option<PublicKey>) -> Seq<u8> {
    match alias {
        Some(key) => key@,
        None => Seq::empty(),
    }
}

/// The bytes of an optional EVM address.
pub open spec fn evm_address_view(address: Option<[u8; 20]>) -> Option<Seq<u8>> {
    match address {
        Some(bytes) => Some(bytes@),
        None => None,
    }
}

/// The alias bytes that go onto the wire, which has one field for both
/// forms of an alias: the raw bytes of the alias key where one is set, else
/// the bytes of the EVM address where one is set, else nothing.
pub open spec fn wire_alias(alias: Option<PublicKey>, evm_address: Option<[u8; 20]>) -> Seq<u8> {
    match (alias, evm_address) {
        (Some(key), _) => key@,
        (None, Some(address)) => address@,
        (None, None) => Seq::empty(),
    }
}

/// Create a new account.
pub type AccountCreateTransaction = Transaction<AccountCreateTransactionData>;

/// The payload of an [`AccountCreateTransaction`].
#[derive(Debug)]
pub struct AccountCreateTransactionData {
    /// The key that must sign each transfer out of the account. If
    /// `receiver_signature_required` is true, it must also sign any transfer
    /// into the account.
    pub key: Option<Key>,
    /// The initial number of hbar to put into the account.
    pub initial_balance: Hbar,
    /// If true, this account's key must sign any transaction depositing into
    /// this account.
    pub receiver_signature_required: bool,
    /// The account is charged to extend its expiration date every this many
    /// seconds.
    pub auto_renew_period: Option<Duration>,
    /// The account to be used at this account's expiration time to extend
    /// the life of the account. If `None`, this account pays for its own
    /// auto renewal fee.
    pub auto_renew_account_id: Option<AccountId>,
    /// The memo associated with the account.
    pub account_memo: String,
    /// The maximum number of tokens that the account can be implicitly
    /// associated with.
    pub max_automatic_token_associations: u16,
    /// A key to be used as the account's alias.
    pub alias: Option<PublicKey>,
    /// A 20-byte EVM address to be used as the account's EVM address.
    pub evm_address: Option<[u8; 20]>,
    /// The account or node to which this account is staking, if any.
    pub staked_id: Option<StakedId>,
    /// If true, the account declines receiving a staking reward.
    pub decline_staking_reward: bool,
}

impl Default for AccountCreateTransactionData {
    fn default() -> (data: Self)
        ensures
            data.is_default(),
    {
        AccountCreateTransactionData {
            key: None,
            initial_balance: Hbar::zero(),
            receiver_signature_required: false,
            auto_renew_period: Some(Duration::days(DEFAULT_AUTO_RENEW_DAYS)),
            auto_renew_account_id: None,
            account_memo: String::new(),
            max_automatic_token_associations: 0,
            alias: None,
            evm_address: None,
            staked_id: None,
            decline_staking_reward: false,
        }
    }
}

impl AccountCreateTransaction {
    /// A transaction whose payload is the default one.
    pub fn new() -> (t: Self)
        ensures
            t.wf(),
            !t.spec_is_frozen(),
            t.data.is_default(),
            t.transaction_id is None,
            t.node_account_ids@.len() == 0,
    {
        Transaction::new_with_data(AccountCreateTransactionData::default())
    }

    /// Get the key this account will be created with: `Some(key)` if previously
    /// set, `None` otherwise.
    #[must_use]
    pub fn get_key(&self) -> (v: Option<&Key>)
        ensures
            v matches Some(x) ==> self.data.key == Some(*x),
            v is None <==> self.data.key is None,
    {
        match &self.data.key {
            Some(x) => Some(x),
            None => None,
        }
    }

    /// Sets the key for this account. Fails once the transaction is frozen.
    pub fn key(&mut self, key: Key) -> (r: Result<(), Error>)
        ensures
            r == old(self).require_not_frozen_result(),
            *final(self) == if r is Ok {
                Transaction {
                    data: (AccountCreateTransactionData {
                        key: Some(key),
                        ..old(self).data
                    }),
                    ..*old(self)
                }
            } else {
                *old(self)
            },
    {
        if self.is_frozen() {
            return Err(Error::FrozenState);
        }
        self.data.key = Some(key);
        Ok(())
    }

    /// Get the balance that will be transferred to this account on creation:
    /// zero unless set.
    #[must_use]
    pub fn get_initial_balance(&self) -> (v: Hbar)
        ensures
            v == self.data.initial_balance,
    {
        self.data.initial_balance
    }

    /// Sets the balance that will be transferred to this account on creation.
    /// Fails once the transaction is frozen.
    pub fn initial_balance(&mut self, balance: Hbar) -> (r: Result<(), Error>)
        ensures
            r == old(self).require_not_frozen_result(),
            *final(self) == if r is Ok {
                Transaction {
                    data: (AccountCreateTransactionData {
                        initial_balance: balance,
                        ..old(self).data
                    }),
                    ..*old(self)
                }
            } else {
                *old(self)
            },
    {
        if self.is_frozen() {
            return Err(Error::FrozenState);
        }
        self.data.initial_balance = balance;
        Ok(())
    }

    /// Returns `true` if this account must sign any transfer of hbars to
    /// itself.
    #[must_use]
    pub fn get_receiver_signature_required(&self) -> (v: bool)
        ensures
            v == self.data.receiver_signature_required,
    {
        self.data.receiver_signature_required
    }

    /// Sets whether this account must sign any transfer of hbars to this
    /// account. Fails once the transaction is frozen.
    pub fn receiver_signature_required(&mut self, required: bool) -> (r: Result<(), Error>)
        ensures
            r == old(self).require_not_frozen_result(),
            *final(self) == if r is Ok {
                Transaction {
                    data: (AccountCreateTransactionData {
                        receiver_signature_required: required,
                        ..old(self).data
                    }),
                    ..*old(self)
                }
            } else {
                *old(self)
            },
    {
        if self.is_frozen() {
            return Err(Error::FrozenState);
        }
        self.data.receiver_signature_required = required;
        Ok(())
    }

    /// Returns the auto renew period for this account.
    #[must_use]
    pub fn get_auto_renew_period(&self) -> (v: Option<Duration>)
        ensures
            v == self.data.auto_renew_period,
    {
        self.data.auto_renew_period
    }

    /// Sets the auto renew period for this account. Fails once the transaction
    /// is frozen.
    pub fn auto_renew_period(&mut self, period: Duration) -> (r: Result<(), Error>)
        ensures
            r == old(self).require_not_frozen_result(),
            *final(self) == if r is Ok {
                Transaction {
                    data: (AccountCreateTransactionData {
                        auto_renew_period: Some(period),
                        ..old(self).data
                    }),
                    ..*old(self)
                }
            } else {
                *old(self)
            },
    {
        if self.is_frozen() {
            return Err(Error::FrozenState);
        }
        self.data.auto_renew_period = Some(period);
        Ok(())
    }

    /// Gets the account to be used at this account's expiration time to extend
    /// the life of the account. If `None`, this account pays for its own auto
    /// renewal fee.
    #[must_use]
    pub fn get_auto_renew_account_id(&self) -> (v: Option<AccountId>)
        ensures
            v == self.data.auto_renew_account_id,
    {
        self.data.auto_renew_account_id
    }

    /// Sets the account to be used at this account's expiration time to extend
    /// the life of the account. Fails once the transaction is frozen.
    pub fn auto_renew_account_id(&mut self, id: AccountId) -> (r: Result<(), Error>)
        ensures
            r == old(self).require_not_frozen_result(),
            *final(self) == if r is Ok {
                Transaction {
                    data: (AccountCreateTransactionData {
                        auto_renew_account_id: Some(id),
                        ..old(self).data
                    }),
                    ..*old(self)
                }
            } else {
                *old(self)
            },
    {
        if self.is_frozen() {
            return Err(Error::FrozenState);
        }
        self.data.auto_renew_account_id = Some(id);
        Ok(())
    }

    /// Get the memo associated with the account.
    #[must_use]
    pub fn get_account_memo(&self) -> (v: &str)
        ensures
            v@ == self.data.account_memo@,
    {
        self.data.account_memo.as_str()
    }

    /// Sets the memo associated with the account. Fails once the transaction is
    /// frozen.
    pub fn account_memo(&mut self, memo: String) -> (r: Result<(), Error>)
        ensures
            r == old(self).require_not_frozen_result(),
            *final(self) == if r is Ok {
                Transaction {
                    data: (AccountCreateTransactionData {
                        account_memo: memo,
                        ..old(self).data
                    }),
                    ..*old(self)
                }
            } else {
                *old(self)
            },
    {
        if self.is_frozen() {
            return Err(Error::FrozenState);
        }
        self.data.account_memo = memo;
        Ok(())
    }

    /// Get the maximum number of tokens that the account can be implicitly
    /// associated with.
    #[must_use]
    pub fn get_max_automatic_token_associations(&self) -> (v: u16)
        ensures
            v == self.data.max_automatic_token_associations,
    {
        self.data.max_automatic_token_associations
    }

    /// Sets the maximum number of tokens that the account can be implicitly
    /// associated with. Fails once the transaction is frozen.
    pub fn max_automatic_token_associations(&mut self, amount: u16) -> (r: Result<(), Error>)
        ensures
            r == old(self).require_not_frozen_result(),
            *final(self) == if r is Ok {
                Transaction {
                    data: (AccountCreateTransactionData {
                        max_automatic_token_associations: amount,
                        ..old(self).data
                    }),
                    ..*old(self)
                }
            } else {
                *old(self)
            },
    {
        if self.is_frozen() {
            return Err(Error::FrozenState);
        }
        self.data.max_automatic_token_associations = amount;
        Ok(())
    }

    /// Returns the public key to be used as the account's alias.
    #[must_use]
    pub fn get_alias(&self) -> (v: Option<&PublicKey>)
        ensures
            v matches Some(x) ==> self.data.alias == Some(*x),
            v is None <==> self.data.alias is None,
    {
        match &self.data.alias {
            Some(x) => Some(x),
            None => None,
        }
    }

    /// Sets the key to be used as the account's alias. A given alias can map to
    /// at most one account on the network at a time. Fails once the transaction
    /// is frozen.
    pub fn alias(&mut self, key: PublicKey) -> (r: Result<(), Error>)
        ensures
            r == old(self).require_not_frozen_result(),
            *final(self) == if r is Ok {
                Transaction {
                    data: (AccountCreateTransactionData {
                        alias: Some(key),
                        ..old(self).data
                    }),
                    ..*old(self)
                }
            } else {
                *old(self)
            },
    {
        if self.is_frozen() {
            return Err(Error::FrozenState);
        }
        self.data.alias = Some(key);
        Ok(())
    }

    /// Returns the EVM address the account will be created with.
    #[must_use]
    pub fn get_evm_address(&self) -> (v: Option<[u8; 20]>)
        ensures
            v == self.data.evm_address,
    {
        self.data.evm_address
    }

    /// Sets the EVM address of the account: the last 20 bytes of the keccak-256
    /// hash of an ECDSA (secp256k1) primitive key. Fails once the transaction
    /// is frozen.
    pub fn evm_address(&mut self, evm_address: [u8; 20]) -> (r: Result<(), Error>)
        ensures
            r == old(self).require_not_frozen_result(),
            *final(self) == if r is Ok {
                Transaction {
                    data: (AccountCreateTransactionData {
                        evm_address: Some(evm_address),
                        ..old(self).data
                    }),
                    ..*old(self)
                }
            } else {
                *old(self)
            },
    {
        if self.is_frozen() {
            return Err(Error::FrozenState);
        }
        self.data.evm_address = Some(evm_address);
        Ok(())
    }

    /// Returns the account to which this account is staking. This is
    /// mutually exclusive with the staked node.
    #[must_use]
    pub fn get_staked_account_id(&self) -> (v: Option<AccountId>)
        ensures
            v == match self.data.staked_id {
                Some(StakedId::AccountId(a)) => Some(a),
                _ => None,
            },
    {
        match self.data.staked_id {
            Some(id) => id.to_account_id(),
            None => None,
        }
    }

    /// Sets the account to which this account is staking, in place of any
    /// staked node. Fails once the transaction is frozen.
    pub fn staked_account_id(&mut self, id: AccountId) -> (r: Result<(), Error>)
        ensures
            r == old(self).require_not_frozen_result(),
            *final(self) == if r is Ok {
                Transaction {
                    data: (AccountCreateTransactionData {
                        staked_id: Some(StakedId::AccountId(id)),
                        ..old(self).data
                    }),
                    ..*old(self)
                }
            } else {
                *old(self)
            },
    {
        if self.is_frozen() {
            return Err(Error::FrozenState);
        }
        self.data.staked_id = Some(StakedId::AccountId(id));
        Ok(())
    }

    /// Returns the node to which this account is staking. This is mutually
    /// exclusive with the staked account.
    #[must_use]
    pub fn get_staked_node_id(&self) -> (v: Option<u64>)
        ensures
            v == match self.data.staked_id {
                Some(StakedId::NodeId(n)) => Some(n),
                _ => None,
            },
    {
        match self.data.staked_id {
            Some(id) => id.to_node_id(),
            None => None,
        }
    }

    /// Sets the node to which this account is staking, in place of any staked
    /// account. Fails once the transaction is frozen.
    pub fn staked_node_id(&mut self, id: u64) -> (r: Result<(), Error>)
        ensures
            r == old(self).require_not_frozen_result(),
            *final(self) == if r is Ok {
                Transaction {
                    data: (AccountCreateTransactionData {
                        staked_id: Some(StakedId::NodeId(id)),
                        ..old(self).data
                    }),
                    ..*old(self)
                }
            } else {
                *old(self)
            },
    {
        if self.is_frozen() {
            return Err(Error::FrozenState);
        }
        self.data.staked_id = Some(StakedId::NodeId(id));
        Ok(())
    }

    /// Returns `true` if the account should decline receiving staking rewards,
    /// `false` otherwise.
    #[must_use]
    pub fn get_decline_staking_reward(&self) -> (v: bool)
        ensures
            v == self.data.decline_staking_reward,
    {
        self.data.decline_staking_reward
    }

    /// Sets whether the account declines receiving a staking reward. Fails once
    /// the transaction is frozen.
    pub fn decline_staking_reward(&mut self, decline: bool) -> (r: Result<(), Error>)
        ensures
            r == old(self).require_not_frozen_result(),
            *final(self) == if r is Ok {
                Transaction {
                    data: (AccountCreateTransactionData {
                        decline_staking_reward: decline,
                        ..old(self).data
                    }),
                    ..*old(self)
                }
            } else {
                *old(self)
            },
    {
        if self.is_frozen() {
            return Err(Error::FrozenState);
        }
        self.data.decline_staking_reward = decline;
        Ok(())
    }
}

/// The 20 bytes of `bytes` as an array.
fn evm_address_of(bytes: &Vec<u8>) -> (address: [u8; 20])
    requires
        bytes@.len() == EVM_ADDRESS_LENGTH,
    ensures
        address@ == bytes@,
{
    let mut address: [u8; 20] = [0u8;20];
    let mut i: usize = 0;
    while i < 20
        invariant
            i <= 20,
            bytes@.len() == 20,
            forall|j: int| 0 <= j < i ==> address@[j] == bytes@[j],
        decreases 20 - i,
    {
        address[i] = bytes[i];
        i += 1;
    }
    assert(address@ =~= bytes@);
    address
}

/// The 20 bytes of an EVM address as a vector.
fn evm_address_bytes(address: &[u8; 20]) -> (bytes: Vec<u8>)
    ensures
        bytes@ == address@,
{
    let mut bytes: Vec<u8> = Vec::new();
    let mut i: usize = 0;
    while i < 20
        invariant
            i <= 20,
            bytes@.len() == i,
            forall|j: int| 0 <= j < i ==> bytes@[j] == address@[j],
        decreases 20 - i,
    {
        bytes.push(address[i]);
        i += 1;
    }
    assert(bytes@ =~= address@);
    bytes
}

impl AccountCreateTransactionData {
    /// The payload of a new transaction: nothing set, no balance, and an
    /// auto renew period of 90 days.
    pub open spec fn is_default(&self) -> bool {
        &&& self.key is None
        &&& self.initial_balance.tinybars == 0
        &&& !self.receiver_signature_required
        &&& self.auto_renew_period == Some(
            Duration { seconds: (DEFAULT_AUTO_RENEW_DAYS * SECONDS_PER_DAY) as i64 },
        )
        &&& self.auto_renew_account_id is None
        &&& self.account_memo@.len() == 0
        &&& self.max_automatic_token_associations == 0
        &&& self.alias is None
        &&& self.evm_address is None
        &&& self.staked_id is None
        &&& !self.decline_staking_reward
    }

    /// Whether `body` is the wire body of the payload. The balance goes onto
    /// the wire as the unsigned integer with the same 64 bits; both record
    /// thresholds are the largest signed 64-bit integer; the alias is the raw
    /// bytes of the alias key, or else the bytes of the EVM address, and
    /// empty without either. The wire has no field for the auto renew
    /// account.
    pub open spec fn is_protobuf(&self, body: CryptoCreateTransactionBody) -> bool {
        &&& key_view(body.key) == key_view(self.key)
        &&& body.initial_balance == self.initial_balance.tinybars as u64
        &&& body.send_record_threshold == i64::MAX
        &&& body.receive_record_threshold == i64::MAX
        &&& body.receiver_sig_required == self.receiver_signature_required
        &&& body.auto_renew_period == self.auto_renew_period
        &&& body.memo@ == self.account_memo@
        &&& body.max_automatic_token_associations == self.max_automatic_token_associations
        &&& body.alias@ =~= wire_alias(self.alias, self.evm_address)
        &&& body.decline_reward == self.decline_staking_reward
        &&& body.staked_id == staked_id_to_wire(self.staked_id)
    }

    /// Whether the payload is what `body` holds. Alias bytes of the length
    /// of an EVM address are the EVM address; any other alias bytes are the
    /// alias key. The wire has no field for the auto renew account, which
    /// is therefore unset.
    pub open spec fn is_from_protobuf(&self, body: CryptoCreateTransactionBody) -> bool {
        &&& self.key == body.key
        &&& self.initial_balance.tinybars == body.initial_balance as i64
        &&& self.receiver_signature_required == body.receiver_sig_required
        &&& self.auto_renew_period == body.auto_renew_period
        &&& self.auto_renew_account_id is None
        &&& self.account_memo == body.memo
        &&& self.max_automatic_token_associations == body.max_automatic_token_associations as u16
        &&& if body.alias@.len() == EVM_ADDRESS_LENGTH {
            &&& self.alias is None
            &&& self.evm_address matches Some(address)
            &&& address@ == body.alias@
        } else {
            &&& self.evm_address is None
            &&& alias_bytes(self.alias) =~= body.alias@
            &&& self.alias is None <==> body.alias@.len() == 0
        }
        &&& self.staked_id == staked_id_from_wire(body.staked_id)
        &&& self.decline_staking_reward == body.decline_reward
    }

    /// Whether both payloads hold the same values.
    pub open spec fn same_values(&self, other: Self) -> bool {
        &&& key_view(self.key) == key_view(other.key)
        &&& self.initial_balance == other.initial_balance
        &&& self.receiver_signature_required == other.receiver_signature_required
        &&& self.auto_renew_period == other.auto_renew_period
        &&& self.auto_renew_account_id == other.auto_renew_account_id
        &&& self.account_memo@ == other.account_memo@
        &&& self.max_automatic_token_associations == other.max_automatic_token_associations
        &&& alias_bytes(self.alias) == alias_bytes(other.alias)
        &&& self.alias is None <==> other.alias is None
        &&& evm_address_view(self.evm_address) == evm_address_view(other.evm_address)
        &&& self.staked_id == other.staked_id
        &&& self.decline_staking_reward == other.decline_staking_reward
    }

    /// Whether the payload's alias is one that the wire's single alias
    /// field can carry: an alias key has the length of a public key and
    /// stands alone, without an EVM address beside it.
    pub open spec fn has_one_alias(&self) -> bool {
        self.alias matches Some(key) ==> is_key_length(key@.len()) && self.evm_address is None
    }

    /// A payload that is written to a wire body and read back holds the
    /// same values as before, the auto renew period and the EVM address
    /// included, provided that no auto renew account is set, for which the
    /// wire has no field, and that the alias is one that the wire can carry.
    pub proof fn lemma_wire_round_trip(self, body: CryptoCreateTransactionBody, back: Self)
        requires
            self.is_protobuf(body),
            back.is_from_protobuf(body),
            self.auto_renew_account_id is None,
            self.has_one_alias(),
        ensures
            back.same_values(self),
    {
        let balance = self.initial_balance.tinybars;
        assert((balance as u64) as i64 == balance) by (bit_vector);
        match self.staked_id {
            Some(StakedId::NodeId(node)) => {
                assert((node as i64) as u64 == node) by (bit_vector);
            },
            _ => {},
        }
        let associations = self.max_automatic_token_associations;
        assert((associations as i32) as u16 == associations) by (bit_vector);
    }

    /// The wire body of the payload.
    pub fn to_protobuf(&self) -> (body: CryptoCreateTransactionBody)
        ensures
            self.is_protobuf(body),
    {
        let key = copy_key(&self.key);
        let staked_id = match self.staked_id {
            Some(StakedId::NodeId(id)) => Some(
                WireStakedId::StakedNodeId(#[verifier::truncate] (id as i64)),
            ),
            Some(StakedId::AccountId(id)) => Some(WireStakedId::StakedAccountId(id)),
            None => None,
        };
        let alias = match (&self.alias, &self.evm_address) {
            (Some(key), _) => key.to_bytes_raw(),
            (None, Some(address)) => evm_address_bytes(address),
            (None, None) => Vec::new(),
        };
        CryptoCreateTransactionBody {
            key,
            initial_balance: #[verifier::truncate] (self.initial_balance.to_tinybars() as u64),
            send_record_threshold: i64::MAX as u64,
            receive_record_threshold: i64::MAX as u64,
            receiver_sig_required: self.receiver_signature_required,
            auto_renew_period: self.auto_renew_period,
            memo: self.account_memo.clone(),
            max_automatic_token_associations: self.max_automatic_token_associations as i32,
            alias,
            decline_reward: self.decline_staking_reward,
            staked_id,
        }
    }

    /// The payload that a wire body holds. Fails where the alias bytes are
    /// neither empty, nor an EVM address, nor a public key.
    pub fn from_protobuf(body: CryptoCreateTransactionBody) -> (r: Result<Self, Error>)
        ensures
            r is Ok <==> body.alias@.len() == 0 || body.alias@.len() == EVM_ADDRESS_LENGTH
                || is_key_length(body.alias@.len()),
            r matches Ok(data) ==> data.is_from_protobuf(body),
            r matches Err(e) ==> e == Error::KeyParse,
    {
        let is_evm_address = body.alias.len() == EVM_ADDRESS_LENGTH;
        let evm_address = if is_evm_address {
            Some(evm_address_of(&body.alias))
        } else {
            None
        };
        let alias = if is_evm_address {
            None
        } else {
            match PublicKey::from_alias_bytes(&body.alias) {
                Ok(key) => key,
                Err(e) => {
                    return Err(e);
                },
            }
        };
        let staked_id = match body.staked_id {
            Some(WireStakedId::StakedAccountId(id)) => Some(StakedId::AccountId(id)),
            Some(WireStakedId::StakedNodeId(id)) => Some(
                StakedId::NodeId(#[verifier::truncate] (id as u64)),
            ),
            None => None,
        };
        Ok(
            AccountCreateTransactionData {
                key: body.key,
                initial_balance: Hbar::from_tinybars(
                    #[verifier::truncate] (body.initial_balance as i64),
                ),
                receiver_signature_required: body.receiver_sig_required,
                auto_renew_period: body.auto_renew_period,
                auto_renew_account_id: None,
                account_memo: body.memo,
                max_automatic_token_associations: #[verifier::truncate] (
                body.max_automatic_token_associations as u16),
                alias,
                evm_address,
                staked_id,
                decline_staking_reward: body.decline_reward,
            },
        )
    }

    /// Validates the checksums of the auto renew account and of the account
    /// staked to, in that order and where each is set, against `ledger`.
    pub fn validate_checksums(&self, ledger: &LedgerId) -> (r: Result<(), Error>)
        ensures
            r == validation_result_all(self.spec_entity_ids(), ledger@),
    {
        let ids = self.entity_ids();
        validate_checksums(&ids, ledger)
    }

    /// The body of the payload for a scheduled transaction.
    pub fn to_schedulable_transaction_data_protobuf(&self) -> (body:
        SchedulableTransactionBodyData)
        ensures
            body matches SchedulableTransactionBodyData::CryptoCreateAccount(b)
                && self.is_protobuf(b),
    {
        SchedulableTransactionBodyData::CryptoCreateAccount(self.to_protobuf())
    }
}

impl TransactionData for AccountCreateTransactionData {
    open spec fn spec_entity_ids(&self) -> Seq<EntityId> {
        optional_entity_ids(self.auto_renew_account_id) + staked_entity_ids(self.staked_id)
    }

    open spec fn spec_rpc_method(&self) -> RpcMethod {
        RpcMethod::CryptoCreateAccount
    }

    open spec fn spec_content(&self) -> Seq<u8> {
        Seq::empty()
    }

    open spec fn is_wire_body(&self, body: TransactionBodyData) -> bool {
        body matches TransactionBodyData::CryptoCreateAccount(b) && self.is_protobuf(b)
    }

    fn entity_ids(&self) -> (ids: Vec<EntityId>) {
        let mut ids: Vec<EntityId> = Vec::new();
        push_optional_id(&mut ids, &self.auto_renew_account_id);
        match self.staked_id {
            Some(StakedId::AccountId(a)) => {
                ids.push(a);
            },
            _ => {},
        }
        assert(ids@ =~= self.spec_entity_ids());
        ids
    }

    open spec fn spec_required_signers(&self) -> Seq<Seq<u8>> {
        key_signers(self.key)
    }

    fn required_signers(&self) -> (keys: Vec<PublicKey>) {
        let mut keys: Vec<PublicKey> = Vec::new();
        push_key_signers(&mut keys, &self.key);
        assert(key_views(keys@) =~= self.spec_required_signers());
        keys
    }

    fn rpc_method(&self) -> (method: RpcMethod) {
        RpcMethod::CryptoCreateAccount
    }

    fn content(&self) -> (content: Option<&Vec<u8>>) {
        None
    }

    fn to_transaction_data_protobuf(&self) -> (body: TransactionBodyData) {
        TransactionBodyData::CryptoCreateAccount(self.to_protobuf())
    }
}

} // verus!
