use hedera::any::AnyTransactionData;
use hedera::entity_id::{Checksum, EntityId, LedgerId};
use hedera::error::Error;
use hedera::hbar::Duration;
use hedera::key::{Key, PublicKey};
use hedera::token_update::{TokenUpdateTransaction, TokenUpdateTransactionData};
use hedera::transaction::TransactionData;
use hedera::transaction_id::Timestamp;
use hedera::wire::{RpcMethod, SchedulableTransactionBodyData, TransactionBodyData};

fn key(fill: u8) -> Key {
    Key::Single(PublicKey::from_bytes(vec![fill; 32]).unwrap())
}

fn fill_of(key: Option<&Key>) -> u8 {
    match key {
        Some(Key::Single(k)) => k.bytes[0],
        other => panic!("unexpected key {:?}", other),
    }
}

#[test]
fn token_update_defaults() {
    let t = TokenUpdateTransaction::new();
    assert_eq!(t.get_token_id(), None);
    assert_eq!(t.get_token_name(), "");
    assert_eq!(t.get_token_symbol(), "");
    assert_eq!(t.get_treasury_account_id(), None);
    assert!(t.get_admin_key().is_none());
    assert!(t.get_kyc_key().is_none());
    assert!(t.get_freeze_key().is_none());
    assert!(t.get_wipe_key().is_none());
    assert!(t.get_supply_key().is_none());
    assert_eq!(t.get_auto_renew_account_id(), None);
    assert_eq!(t.get_auto_renew_period(), None);
    assert_eq!(t.get_expiration_time(), None);
    assert_eq!(t.get_token_memo(), "");
    assert!(t.get_fee_schedule_key().is_none());
    assert!(t.get_pause_key().is_none());
}

#[test]
fn token_update_reads_back_what_was_set() {
    let mut t = TokenUpdateTransaction::new();
    t.token_id(EntityId::from(10)).unwrap();
    t.token_name(String::from("name")).unwrap();
    t.token_symbol(String::from("SYM")).unwrap();
    t.treasury_account_id(EntityId::from(11)).unwrap();
    t.admin_key(key(1)).unwrap();
    t.kyc_key(key(2)).unwrap();
    t.freeze_key(key(3)).unwrap();
    t.wipe_key(key(4)).unwrap();
    t.supply_key(key(5)).unwrap();
    t.auto_renew_account_id(EntityId::from(12)).unwrap();
    t.auto_renew_period(Duration::seconds(99)).unwrap();
    t.token_memo(String::from("memo")).unwrap();
    t.fee_schedule_key(key(6)).unwrap();
    t.pause_key(key(7)).unwrap();
    assert_eq!(t.get_token_id(), Some(EntityId::from(10)));
    assert_eq!(t.get_token_name(), "name");
    assert_eq!(t.get_token_symbol(), "SYM");
    assert_eq!(t.get_treasury_account_id(), Some(EntityId::from(11)));
    assert_eq!(fill_of(t.get_admin_key()), 1);
    assert_eq!(fill_of(t.get_kyc_key()), 2);
    assert_eq!(fill_of(t.get_freeze_key()), 3);
    assert_eq!(fill_of(t.get_wipe_key()), 4);
    assert_eq!(fill_of(t.get_supply_key()), 5);
    assert_eq!(t.get_auto_renew_account_id(), Some(EntityId::from(12)));
    assert_eq!(t.get_auto_renew_period(), Some(Duration::seconds(99)));
    assert_eq!(t.get_token_memo(), "memo");
    assert_eq!(fill_of(t.get_fee_schedule_key()), 6);
    assert_eq!(fill_of(t.get_pause_key()), 7);
}

#[test]
fn expiration_time_clears_the_auto_renew_period() {
    let mut t = TokenUpdateTransaction::new();
    t.auto_renew_period(Duration::seconds(99)).unwrap();
    let at = Timestamp { seconds: 1_800_000_000, nanos: 5 };
    t.expiration_time(at).unwrap();
    assert_eq!(t.get_expiration_time(), Some(at));
    assert_eq!(t.get_auto_renew_period(), None);
}

#[test]
fn token_update_wire_body_round_trips() {
    let mut t = TokenUpdateTransaction::new();
    t.token_id(EntityId::from(10)).unwrap();
    t.token_name(String::from("name")).unwrap();
    t.token_symbol(String::from("SYM")).unwrap();
    t.treasury_account_id(EntityId::from(11)).unwrap();
    t.admin_key(key(1)).unwrap();
    t.pause_key(Key::ContractId(EntityId::from(77))).unwrap();
    t.auto_renew_account_id(EntityId::from(12)).unwrap();
    t.auto_renew_period(Duration::seconds(99)).unwrap();
    t.token_memo(String::from("memo")).unwrap();
    let body = t.data().to_protobuf();
    assert_eq!(body.token, Some(EntityId::from(10)));
    assert_eq!(body.name, "name");
    assert_eq!(body.symbol, "SYM");
    assert_eq!(body.treasury, Some(EntityId::from(11)));
    assert_eq!(fill_of(body.admin_key.as_ref()), 1);
    assert!(body.kyc_key.is_none());
    assert!(matches!(body.pause_key, Some(Key::ContractId(id)) if id == EntityId::from(77)));
    assert_eq!(body.auto_renew_account, Some(EntityId::from(12)));
    assert_eq!(body.auto_renew_period, Some(Duration::seconds(99)));
    assert_eq!(body.expiry, None);
    assert_eq!(body.memo, Some(String::from("memo")));
    let back = TokenUpdateTransactionData::from_protobuf(body).unwrap();
    assert_eq!(back.token_id, Some(EntityId::from(10)));
    assert_eq!(back.token_name, "name");
    assert_eq!(back.token_symbol, "SYM");
    assert_eq!(back.token_memo, "memo");
    assert_eq!(fill_of(back.admin_key.as_ref()), 1);
    assert_eq!(back.auto_renew_period, Some(Duration::seconds(99)));
    let mut body = t.data().to_protobuf();
    body.memo = None;
    let any = AnyTransactionData::from_protobuf(TransactionBodyData::TokenUpdate(body)).unwrap();
    match any {
        AnyTransactionData::TokenUpdate(data) => assert_eq!(data.token_memo, ""),
        other => panic!("unexpected kind {:?}", other),
    }
    assert!(matches!(
        t.data().to_schedulable_transaction_data_protobuf(),
        SchedulableTransactionBodyData::TokenUpdate(_)
    ));
}

#[test]
fn token_update_validates_token_then_renew_account_then_treasury() {
    let wrong = Checksum::from_bytes(b"aaaaa").unwrap();
    let token = EntityId::new(0, 0, 10).with_checksum(wrong);
    let renew = EntityId::new(0, 0, 12).with_checksum(wrong);
    let treasury = EntityId::new(0, 0, 11).with_checksum(wrong);
    let mainnet = LedgerId::mainnet();
    let mut t = TokenUpdateTransaction::new();
    t.treasury_account_id(treasury).unwrap();
    assert_eq!(t.data().validate_checksums(&mainnet), treasury.validate_checksum(&mainnet));
    t.auto_renew_account_id(renew).unwrap();
    assert_eq!(t.data().validate_checksums(&mainnet), renew.validate_checksum(&mainnet));
    t.token_id(token).unwrap();
    assert_eq!(t.data().validate_checksums(&mainnet), token.validate_checksum(&mainnet));
    assert_eq!(t.data().entity_ids(), vec![token, renew, treasury]);
    assert!(matches!(
        t.validate_checksums(&mainnet),
        Err(Error::BadEntityIdChecksum { num: 10, .. })
    ));
    assert_eq!(t.data().rpc_method(), RpcMethod::TokenUpdate);
    assert_eq!(t.data().rpc_method().name(), "updateToken");
    assert_eq!(t.data().rpc_method().service(), "TokenService");
}
