use hedera::account_create::AccountCreateTransaction;
use hedera::chunk::ChunkPolicy;
use hedera::entity_id::EntityId;
use hedera::error::Error;
use hedera::key::{Key, PublicKey};
use hedera::token_update::TokenUpdateTransaction;
use hedera::topic_message_submit::{
    TopicMessageSubmitTransaction, TopicMessageSubmitTransactionData,
};
use hedera::transaction::{SignatureStatus, Stage, TransactionData};
use hedera::transaction_id::{Timestamp, TransactionId};
use hedera::wire::{ConsensusMessageChunkInfo, RpcMethod, TransactionBodyData};

fn blob(bytes: Vec<u8>) -> TopicMessageSubmitTransaction {
    let mut t = TopicMessageSubmitTransaction::new();
    t.topic_id(EntityId::from(700)).unwrap();
    t.message(bytes).unwrap();
    t
}

fn id() -> TransactionId {
    TransactionId::new(EntityId::from(2), Timestamp { seconds: 1_700_000_000, nanos: 0 })
}

fn key(fill: u8) -> PublicKey {
    PublicKey::from_bytes(vec![fill; 32]).unwrap()
}

#[test]
fn oversized_payload_is_refused_at_freeze() {
    let mut t = blob(vec![0u8; 10 * 1024 * 1024]);
    let policy = ChunkPolicy::new(4 * 1024, 20).unwrap();
    assert_eq!(
        t.freeze_with(vec![EntityId::from(3)], id(), &policy),
        Err(Error::ChunkCountExceeded { required: 2560, max: 20 })
    );
    assert_eq!(t.get_stage(), Stage::Building);
    assert_eq!(t.get_transaction_id(), None);
    assert!(t.get_node_account_ids().is_empty());
    assert!(t.get_chunks().is_empty());
    assert_eq!(t.sign_with(key(1), vec![1]), Err(Error::WrongStage));
}

#[test]
fn large_payload_is_planned_at_freeze_and_not_planned_again() {
    let bytes: Vec<u8> = (0..10_000u32).map(|i| (i % 251) as u8).collect();
    let mut t = blob(bytes.clone());
    let policy = ChunkPolicy::new(4096, 20).unwrap();
    assert_eq!(t.freeze_with(vec![EntityId::from(3)], id(), &policy), Ok(()));
    let plan = t.get_chunks();
    assert_eq!(plan.len(), 3);
    let sizes: Vec<usize> = plan.iter().map(|c| c.data.len()).collect();
    assert_eq!(sizes, vec![4096, 4096, 1808]);
    for (i, chunk) in plan.iter().enumerate() {
        assert_eq!(chunk.index, i);
        assert_eq!(chunk.total, 3);
        assert_eq!(chunk.initial_transaction_id, id());
    }
    let joined: Vec<u8> = plan.iter().flat_map(|c| c.data.clone()).collect();
    assert_eq!(joined, bytes);
    let other = ChunkPolicy::new(16, 1).unwrap();
    assert_eq!(t.freeze_with(vec![EntityId::from(9)], id(), &other), Ok(()));
    assert_eq!(t.get_chunks().len(), 3);
    assert_eq!(t.get_transaction_id(), Some(id()));
}

#[test]
fn payload_within_one_chunk_is_sent_whole() {
    let mut t = blob(vec![1u8; 4096]);
    let policy = ChunkPolicy::new(4096, 0).unwrap();
    assert_eq!(t.freeze_with(vec![EntityId::from(3)], id(), &policy), Ok(()));
    assert!(t.get_chunks().is_empty());
}

#[test]
fn signature_status_follows_the_required_signers() {
    let mut t = AccountCreateTransaction::new();
    t.key(Key::Single(key(1))).unwrap();
    let policy = ChunkPolicy::new(4096, 20).unwrap();
    t.freeze_with(vec![EntityId::from(3)], id(), &policy).unwrap();
    assert_eq!(t.data().required_signers().len(), 1);
    assert_eq!(t.signature_status(), SignatureStatus::Unsigned);
    t.sign_with(key(2), vec![2]).unwrap();
    assert_eq!(t.signature_status(), SignatureStatus::Partial);
    t.sign_with(key(1), vec![1]).unwrap();
    assert_eq!(t.signature_status(), SignatureStatus::Complete);
}

#[test]
fn payload_without_required_signers_is_complete_after_any_signature() {
    let mut t = TokenUpdateTransaction::new();
    t.admin_key(Key::ContractId(EntityId::from(5))).unwrap();
    let policy = ChunkPolicy::new(4096, 20).unwrap();
    t.freeze_with(vec![EntityId::from(3)], id(), &policy).unwrap();
    assert!(t.data().required_signers().is_empty());
    assert_eq!(t.signature_status(), SignatureStatus::Unsigned);
    t.sign_with(key(2), vec![2]).unwrap();
    assert_eq!(t.signature_status(), SignatureStatus::Complete);
}

#[test]
fn message_submission_wire_bodies() {
    let bytes: Vec<u8> = (0..10u8).collect();
    let mut t = blob(bytes.clone());
    assert_eq!(t.get_topic_id(), Some(EntityId::from(700)));
    assert_eq!(t.get_message(), &bytes);
    assert_eq!(t.data().rpc_method(), RpcMethod::SubmitMessage);
    assert_eq!(t.data().rpc_method().name(), "submitMessage");
    assert_eq!(t.data().rpc_method().service(), "ConsensusService");
    assert_eq!(t.data().rpc_method().tag(), 27);
    assert_eq!(t.data().entity_ids(), vec![EntityId::from(700)]);
    match t.data().to_transaction_data_protobuf() {
        TransactionBodyData::ConsensusSubmitMessage(body) => {
            assert_eq!(body.topic_id, Some(EntityId::from(700)));
            assert_eq!(body.message, bytes);
            assert_eq!(body.chunk_info, None);
        }
        other => panic!("unexpected body {:?}", other),
    }
    let policy = ChunkPolicy::new(4, 20).unwrap();
    t.freeze_with(vec![EntityId::from(3)], id(), &policy).unwrap();
    assert_eq!(t.message(vec![]), Err(Error::FrozenState));
    assert_eq!(t.topic_id(EntityId::from(1)), Err(Error::FrozenState));
    let last = &t.get_chunks()[2];
    let body = t.data().chunk_to_protobuf(last);
    assert_eq!(body.topic_id, Some(EntityId::from(700)));
    assert_eq!(body.message, vec![8, 9]);
    assert_eq!(
        body.chunk_info,
        Some(ConsensusMessageChunkInfo { initial_transaction_id: id(), total: 3, number: 3 })
    );
    let back = TopicMessageSubmitTransactionData::from_protobuf(body);
    assert_eq!(back.topic_id, Some(EntityId::from(700)));
    assert_eq!(back.message, vec![8, 9]);
    let d = TopicMessageSubmitTransactionData::default();
    assert_eq!(d.topic_id, None);
    assert!(d.message.is_empty());
}
