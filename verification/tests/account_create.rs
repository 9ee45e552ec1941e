use hedera::account_create::{
    AccountCreateTransaction, AccountCreateTransactionData, StakedId,
};
use hedera::any::AnyTransactionData;
use hedera::entity_id::{Checksum, EntityId, LedgerId};
use hedera::error::Error;
use hedera::hbar::{Duration, Hbar};
use hedera::key::{Key, PublicKey};
use hedera::transaction::TransactionData;
use hedera::wire::{
    RpcMethod, SchedulableTransactionBodyData, TransactionBodyData, WireStakedId,
};

fn key(fill: u8, len: usize) -> PublicKey {
    PublicKey::from_bytes(vec![fill; len]).unwrap()
}

#[test]
fn ninety_days_are_counted_in_seconds() {
    assert_eq!(Duration::days(90), Duration::seconds(7_776_000));
    assert_eq!(Duration::days(1).seconds, 86_400);
    assert_eq!(Duration::days(-2).seconds, -172_800);
    assert_eq!(Duration::days(0).seconds, 0);
}

#[test]
fn account_create_defaults() {
    let t = AccountCreateTransaction::new();
    assert!(t.get_key().is_none());
    assert_eq!(t.get_initial_balance(), Hbar::from_tinybars(0));
    assert!(!t.get_receiver_signature_required());
    assert_eq!(t.get_auto_renew_period(), Some(Duration::seconds(7_776_000)));
    assert_eq!(t.get_auto_renew_account_id(), None);
    assert_eq!(t.get_account_memo(), "");
    assert_eq!(t.get_max_automatic_token_associations(), 0);
    assert!(t.get_alias().is_none());
    assert_eq!(t.get_evm_address(), None);
    assert_eq!(t.get_staked_account_id(), None);
    assert_eq!(t.get_staked_node_id(), None);
    assert!(!t.get_decline_staking_reward());
}

#[test]
fn account_create_reads_back_what_was_set() {
    let mut t = AccountCreateTransaction::new();
    t.key(Key::Single(key(1, 32))).unwrap();
    t.initial_balance(Hbar::from_tinybars(1000)).unwrap();
    t.receiver_signature_required(true).unwrap();
    t.auto_renew_period(Duration::days(30)).unwrap();
    t.auto_renew_account_id(EntityId::from(8)).unwrap();
    t.account_memo(String::from("hello")).unwrap();
    t.max_automatic_token_associations(1000).unwrap();
    t.alias(key(2, 33)).unwrap();
    t.evm_address([3; 20]).unwrap();
    t.decline_staking_reward(true).unwrap();
    match t.get_key() {
        Some(Key::Single(k)) => assert_eq!(k.bytes, vec![1; 32]),
        other => panic!("unexpected key {:?}", other),
    }
    assert_eq!(t.get_initial_balance().to_tinybars(), 1000);
    assert!(t.get_receiver_signature_required());
    assert_eq!(t.get_auto_renew_period(), Some(Duration::seconds(2_592_000)));
    assert_eq!(t.get_auto_renew_account_id(), Some(EntityId::from(8)));
    assert_eq!(t.get_account_memo(), "hello");
    assert_eq!(t.get_max_automatic_token_associations(), 1000);
    assert_eq!(t.get_alias().unwrap().to_bytes_raw(), vec![2; 33]);
    assert_eq!(t.get_evm_address(), Some([3; 20]));
    assert!(t.get_decline_staking_reward());
}

#[test]
fn staked_account_and_node_exclude_each_other() {
    let mut t = AccountCreateTransaction::new();
    t.staked_account_id(EntityId::from(7)).unwrap();
    assert_eq!(t.get_staked_account_id(), Some(EntityId::from(7)));
    assert_eq!(t.get_staked_node_id(), None);
    t.staked_node_id(4).unwrap();
    assert_eq!(t.get_staked_account_id(), None);
    assert_eq!(t.get_staked_node_id(), Some(4));
    assert_eq!(StakedId::NodeId(4).to_node_id(), Some(4));
    assert_eq!(StakedId::NodeId(4).to_account_id(), None);
    assert_eq!(StakedId::AccountId(EntityId::from(7)).to_account_id(), Some(EntityId::from(7)));
}

#[test]
fn account_create_wire_body() {
    let mut t = AccountCreateTransaction::new();
    t.key(Key::ContractId(EntityId::from(12))).unwrap();
    t.initial_balance(Hbar::from_tinybars(1000)).unwrap();
    t.account_memo(String::from("memo")).unwrap();
    t.max_automatic_token_associations(65_535).unwrap();
    t.alias(key(2, 32)).unwrap();
    t.staked_node_id(3).unwrap();
    let body = t.data().to_protobuf();
    assert!(matches!(body.key, Some(Key::ContractId(id)) if id == EntityId::from(12)));
    assert_eq!(body.initial_balance, 1000);
    assert_eq!(body.send_record_threshold, 9_223_372_036_854_775_807);
    assert_eq!(body.receive_record_threshold, 9_223_372_036_854_775_807);
    assert!(!body.receiver_sig_required);
    assert_eq!(body.auto_renew_period, Some(Duration::seconds(7_776_000)));
    assert_eq!(body.memo, "memo");
    assert_eq!(body.max_automatic_token_associations, 65_535);
    assert_eq!(body.alias, vec![2; 32]);
    assert!(!body.decline_reward);
    assert_eq!(body.staked_id, Some(WireStakedId::StakedNodeId(3)));
    assert!(matches!(
        t.data().to_schedulable_transaction_data_protobuf(),
        SchedulableTransactionBodyData::CryptoCreateAccount(_)
    ));
    assert!(matches!(
        t.data().to_transaction_data_protobuf(),
        TransactionBodyData::CryptoCreateAccount(_)
    ));
    assert_eq!(t.data().rpc_method(), RpcMethod::CryptoCreateAccount);
}

#[test]
fn negative_balance_and_large_node_number_keep_their_bits() {
    let mut t = AccountCreateTransaction::new();
    t.initial_balance(Hbar::from_tinybars(-1)).unwrap();
    t.staked_node_id(u64::MAX).unwrap();
    let body = t.data().to_protobuf();
    assert_eq!(body.initial_balance, u64::MAX);
    assert_eq!(body.staked_id, Some(WireStakedId::StakedNodeId(-1)));
    assert!(body.alias.is_empty());
    let back = AccountCreateTransactionData::from_protobuf(body).unwrap();
    assert_eq!(back.initial_balance, Hbar::from_tinybars(-1));
    assert_eq!(back.staked_id, Some(StakedId::NodeId(u64::MAX)));
}

#[test]
fn account_create_from_wire_body() {
    let mut t = AccountCreateTransaction::new();
    t.account_memo(String::from("m")).unwrap();
    t.receiver_signature_required(true).unwrap();
    t.decline_staking_reward(true).unwrap();
    t.staked_account_id(EntityId::from(7)).unwrap();
    let mut body = t.data().to_protobuf();
    body.max_automatic_token_associations = 65_536 + 5;
    body.alias = vec![4; 20];
    let data = AccountCreateTransactionData::from_protobuf(body).unwrap();
    assert_eq!(data.evm_address, Some([4; 20]));
    assert!(data.alias.is_none());
    assert_eq!(data.auto_renew_period, Some(Duration::seconds(7_776_000)));
    assert_eq!(data.auto_renew_account_id, None);
    assert_eq!(data.account_memo, "m");
    assert!(data.receiver_signature_required);
    assert!(data.decline_staking_reward);
    assert_eq!(data.max_automatic_token_associations, 5);
    assert_eq!(data.staked_id, Some(StakedId::AccountId(EntityId::from(7))));

    let mut body = t.data().to_protobuf();
    body.alias = vec![5; 33];
    let data = AccountCreateTransactionData::from_protobuf(body).unwrap();
    assert_eq!(data.evm_address, None);
    assert_eq!(data.alias.unwrap().bytes, vec![5; 33]);

    let mut body = t.data().to_protobuf();
    body.alias = vec![5; 21];
    assert!(matches!(AccountCreateTransactionData::from_protobuf(body), Err(Error::KeyParse)));
    let mut body = t.data().to_protobuf();
    body.alias = vec![5; 21];
    assert!(matches!(
        AnyTransactionData::from_protobuf(TransactionBodyData::CryptoCreateAccount(body)),
        Err(Error::KeyParse)
    ));
}

#[test]
fn public_keys_have_one_of_two_lengths() {
    assert!(PublicKey::from_bytes(vec![0; 32]).is_ok());
    assert!(PublicKey::from_bytes(vec![0; 33]).is_ok());
    assert!(matches!(PublicKey::from_bytes(vec![0; 31]), Err(Error::KeyParse)));
    assert!(matches!(PublicKey::from_bytes(vec![]), Err(Error::KeyParse)));
    assert!(matches!(PublicKey::from_alias_bytes(&vec![]), Ok(None)));
    assert!(matches!(PublicKey::from_alias_bytes(&vec![1; 20]), Err(Error::KeyParse)));
    assert!(key(1, 32).same(&key(1, 32)));
    assert!(!key(1, 32).same(&key(2, 32)));
    assert!(!key(1, 32).same(&key(1, 33)));
    assert_eq!(key(6, 32).clone().to_bytes_raw(), vec![6; 32]);
}

#[test]
fn account_create_validates_the_staked_account() {
    let wrong = Checksum::from_bytes(b"aaaaa").unwrap();
    let staked = EntityId::new(0, 0, 1002).with_checksum(wrong);
    let mut t = AccountCreateTransaction::new();
    t.staked_account_id(staked).unwrap();
    let mainnet = LedgerId::mainnet();
    assert_eq!(t.data().validate_checksums(&mainnet), staked.validate_checksum(&mainnet));
    assert!(t.validate_checksums(&mainnet).is_err());
    t.staked_node_id(1).unwrap();
    assert_eq!(t.data().validate_checksums(&mainnet), Ok(()));
    assert_eq!(t.data().entity_ids(), vec![]);
}

#[test]
fn default_payload_reads_back_from_its_wire_body() {
    let t = AccountCreateTransaction::new();
    let back = AccountCreateTransactionData::from_protobuf(t.data().to_protobuf()).unwrap();
    assert!(back.key.is_none());
    assert_eq!(back.initial_balance, Hbar::from_tinybars(0));
    assert!(!back.receiver_signature_required);
    assert_eq!(back.auto_renew_period, Some(Duration::days(90)));
    assert_eq!(back.auto_renew_account_id, None);
    assert_eq!(back.account_memo, "");
    assert_eq!(back.max_automatic_token_associations, 0);
    assert!(back.alias.is_none());
    assert_eq!(back.evm_address, None);
    assert_eq!(back.staked_id, None);
    assert!(!back.decline_staking_reward);
}

#[test]
fn set_payload_reads_back_from_its_wire_body() {
    let mut t = AccountCreateTransaction::new();
    t.key(Key::Single(key(1, 32))).unwrap();
    t.initial_balance(Hbar::from_tinybars(1000)).unwrap();
    t.receiver_signature_required(true).unwrap();
    t.auto_renew_period(Duration::days(30)).unwrap();
    t.account_memo(String::from("hello")).unwrap();
    t.max_automatic_token_associations(1000).unwrap();
    t.evm_address([3; 20]).unwrap();
    t.staked_account_id(EntityId::from(7)).unwrap();
    t.decline_staking_reward(true).unwrap();
    let body = t.data().to_protobuf();
    assert_eq!(body.alias, vec![3; 20]);
    assert_eq!(body.auto_renew_period, Some(Duration::seconds(2_592_000)));
    let back = AccountCreateTransactionData::from_protobuf(body).unwrap();
    assert!(matches!(&back.key, Some(Key::Single(k)) if k.bytes == vec![1; 32]));
    assert_eq!(back.initial_balance, Hbar::from_tinybars(1000));
    assert!(back.receiver_signature_required);
    assert_eq!(back.auto_renew_period, Some(Duration::seconds(2_592_000)));
    assert_eq!(back.account_memo, "hello");
    assert_eq!(back.max_automatic_token_associations, 1000);
    assert!(back.alias.is_none());
    assert_eq!(back.evm_address, Some([3; 20]));
    assert_eq!(back.staked_id, Some(StakedId::AccountId(EntityId::from(7))));
    assert!(back.decline_staking_reward);
}

#[test]
fn alias_key_goes_onto_the_wire_before_an_evm_address() {
    let mut t = AccountCreateTransaction::new();
    t.evm_address([3; 20]).unwrap();
    assert_eq!(t.data().to_protobuf().alias, vec![3; 20]);
    t.alias(key(2, 33)).unwrap();
    assert_eq!(t.data().to_protobuf().alias, vec![2; 33]);
    let back = AccountCreateTransactionData::from_protobuf(t.data().to_protobuf()).unwrap();
    assert_eq!(back.alias.unwrap().bytes, vec![2; 33]);
    assert_eq!(back.evm_address, None);
}

#[test]
fn account_create_validates_the_auto_renew_account_first() {
    let wrong = Checksum::from_bytes(b"aaaaa").unwrap();
    let renew = EntityId::new(0, 0, 1001).with_checksum(wrong);
    let staked = EntityId::new(0, 0, 1002).with_checksum(wrong);
    let mainnet = LedgerId::mainnet();
    let mut t = AccountCreateTransaction::new();
    t.auto_renew_account_id(renew).unwrap();
    assert_eq!(t.data().entity_ids(), vec![renew]);
    assert_eq!(t.data().validate_checksums(&mainnet), renew.validate_checksum(&mainnet));
    assert!(matches!(
        t.data().validate_checksums(&mainnet),
        Err(Error::BadEntityIdChecksum { num: 1001, .. })
    ));
    t.staked_account_id(staked).unwrap();
    assert_eq!(t.data().entity_ids(), vec![renew, staked]);
    assert!(matches!(
        t.validate_checksums(&mainnet),
        Err(Error::BadEntityIdChecksum { num: 1001, .. })
    ));
    let mut t = AccountCreateTransaction::new();
    t.auto_renew_account_id(EntityId::from(1001)).unwrap();
    t.staked_account_id(staked).unwrap();
    assert!(matches!(
        t.validate_checksums(&mainnet),
        Err(Error::BadEntityIdChecksum { num: 1002, .. })
    ));
    let good = EntityId::from_bytes(b"0.0.123-vfmkw").unwrap();
    let mut t = AccountCreateTransaction::new();
    t.auto_renew_account_id(good).unwrap();
    assert_eq!(t.validate_checksums(&mainnet), Ok(()));
}
