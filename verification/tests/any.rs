use hedera::account_create::AccountCreateTransactionData;
use hedera::account_delete::AccountDeleteTransactionData;
use hedera::any::AnyTransactionData;
use hedera::entity_id::{AccountAddress, EntityId};
use hedera::error::Error;
use hedera::token_update::TokenUpdateTransactionData;
use hedera::topic_message_submit::TopicMessageSubmitTransactionData;
use hedera::transaction::TransactionData;
use hedera::wire::{RpcMethod, TransactionBodyData};

#[test]
fn each_kind_converts_into_the_sum_type() {
    assert!(matches!(
        AnyTransactionData::from(AccountCreateTransactionData::default()),
        AnyTransactionData::AccountCreate(_)
    ));
    assert!(matches!(
        AnyTransactionData::from(AccountDeleteTransactionData::default()),
        AnyTransactionData::AccountDelete(_)
    ));
    assert!(matches!(
        AnyTransactionData::from(TokenUpdateTransactionData::default()),
        AnyTransactionData::TokenUpdate(_)
    ));
    let message = AnyTransactionData::from(TopicMessageSubmitTransactionData {
        topic_id: None,
        message: vec![1, 2, 3],
    });
    assert!(matches!(message, AnyTransactionData::TopicMessageSubmit(_)));
    assert_eq!(message.content(), Some(&vec![1, 2, 3]));
    assert_eq!(message.rpc_method(), RpcMethod::SubmitMessage);
    match AnyTransactionData::from_protobuf(message.to_transaction_data_protobuf()) {
        Ok(AnyTransactionData::TopicMessageSubmit(data)) => assert_eq!(data.message, vec![1, 2, 3]),
        other => panic!("unexpected payload {:?}", other),
    }
}

#[test]
fn dispatch_follows_the_kind() {
    let create = AnyTransactionData::from(AccountCreateTransactionData::default());
    let mut delete_data = AccountDeleteTransactionData::default();
    delete_data.delete_account_id = Some(AccountAddress::AccountId(EntityId::from(9)));
    let delete = AnyTransactionData::from(delete_data);
    let update = AnyTransactionData::from(TokenUpdateTransactionData::default());
    assert_eq!(create.rpc_method(), RpcMethod::CryptoCreateAccount);
    assert_eq!(delete.rpc_method(), RpcMethod::CryptoDelete);
    assert_eq!(update.rpc_method(), RpcMethod::TokenUpdate);
    assert_eq!(delete.entity_ids(), vec![EntityId::from(9)]);
    assert!(create.entity_ids().is_empty());
    assert!(update.content().is_none());
    assert!(matches!(
        create.to_transaction_data_protobuf(),
        TransactionBodyData::CryptoCreateAccount(_)
    ));
    assert!(matches!(delete.to_transaction_data_protobuf(), TransactionBodyData::CryptoDelete(_)));
    assert!(matches!(update.to_transaction_data_protobuf(), TransactionBodyData::TokenUpdate(_)));
}

#[test]
fn tags_select_the_method() {
    assert_eq!(RpcMethod::from_tag(11), Ok(RpcMethod::CryptoCreateAccount));
    assert_eq!(RpcMethod::from_tag(12), Ok(RpcMethod::CryptoDelete));
    assert_eq!(RpcMethod::from_tag(36), Ok(RpcMethod::TokenUpdate));
    assert_eq!(RpcMethod::from_tag(27), Ok(RpcMethod::SubmitMessage));
    assert_eq!(RpcMethod::CryptoCreateAccount.tag(), 11);
    assert_eq!(RpcMethod::CryptoDelete.tag(), 12);
    assert_eq!(RpcMethod::TokenUpdate.tag(), 36);
}

#[test]
fn unknown_tag_is_an_unsupported_kind() {
    assert_eq!(RpcMethod::from_tag(99), Err(Error::UnsupportedTransactionKind { tag: 99 }));
    assert_eq!(RpcMethod::from_tag(0), Err(Error::UnsupportedTransactionKind { tag: 0 }));
}
