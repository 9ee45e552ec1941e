use hedera::chunk::{plan_chunks, ChunkPolicy};
use hedera::entity_id::EntityId;
use hedera::error::Error;
use hedera::transaction_id::{Timestamp, TransactionId};

fn base() -> TransactionId {
    TransactionId::new(EntityId::from(2), Timestamp { seconds: 1_700_000_000, nanos: 7 })
}

#[test]
fn policy_needs_room_for_a_byte() {
    assert_eq!(ChunkPolicy::new(0, 20), None);
    assert_eq!(ChunkPolicy::new(4, 20), Some(ChunkPolicy { chunk_size: 4, max_chunks: 20 }));
}

#[test]
fn content_is_split_into_contiguous_ranges() {
    let content: Vec<u8> = (0u8..10).collect();
    let policy = ChunkPolicy::new(4, 20).unwrap();
    let plan = plan_chunks(&content, base(), &policy).unwrap();
    assert_eq!(plan.len(), 3);
    assert_eq!(plan[0].data, vec![0, 1, 2, 3]);
    assert_eq!(plan[1].data, vec![4, 5, 6, 7]);
    assert_eq!(plan[2].data, vec![8, 9]);
    for (i, chunk) in plan.iter().enumerate() {
        assert_eq!(chunk.index, i);
        assert_eq!(chunk.total, 3);
        assert_eq!(chunk.initial_transaction_id, base());
    }
    let joined: Vec<u8> = plan.iter().flat_map(|c| c.data.clone()).collect();
    assert_eq!(joined, content);
}

#[test]
fn content_over_the_limit_by_one_byte_takes_one_more_chunk() {
    let policy = ChunkPolicy::new(1024, 20).unwrap();
    let content = vec![7u8; 3 * 1024 + 1];
    let plan = plan_chunks(&content, base(), &policy).unwrap();
    assert_eq!(plan.len(), 4);
    assert_eq!(plan[3].data.len(), 1);
    let even = vec![7u8; 3 * 1024];
    assert_eq!(plan_chunks(&even, base(), &policy).unwrap().len(), 3);
}

#[test]
fn empty_content_needs_no_chunk() {
    let policy = ChunkPolicy::new(4, 0).unwrap();
    assert_eq!(plan_chunks(&[], base(), &policy).unwrap().len(), 0);
}

#[test]
fn ten_mebibytes_in_four_kibibyte_chunks_exceed_twenty_chunks() {
    let content = vec![0u8; 10 * 1024 * 1024];
    let policy = ChunkPolicy::new(4 * 1024, 20).unwrap();
    match plan_chunks(&content, base(), &policy) {
        Err(e) => assert_eq!(e, Error::ChunkCountExceeded { required: 2560, max: 20 }),
        Ok(_) => panic!("the plan must be refused"),
    }
}

#[test]
fn plan_at_the_limit_is_accepted() {
    let content = vec![1u8; 80];
    let policy = ChunkPolicy::new(4, 20).unwrap();
    assert_eq!(plan_chunks(&content, base(), &policy).unwrap().len(), 20);
    let content = vec![1u8; 81];
    assert!(plan_chunks(&content, base(), &policy).is_err());
}

#[test]
fn chunk_identifiers_follow_from_base_and_index() {
    let b = base();
    assert_eq!(b.for_chunk(0), b);
    let third = b.for_chunk(3);
    assert_eq!(third.nonce, Some(3));
    assert_eq!(third.account_id, b.account_id);
    assert_eq!(third.valid_start, b.valid_start);
}

#[test]
fn chunks_are_sent_under_identifiers_derived_from_the_first() {
    let content = vec![1u8; 10];
    let policy = ChunkPolicy::new(4, 20).unwrap();
    let plan = plan_chunks(&content, base(), &policy).unwrap();
    assert_eq!(plan[0].transaction_id(), Some(base()));
    assert_eq!(plan[1].transaction_id(), Some(base().for_chunk(1)));
    assert_eq!(plan[2].transaction_id().unwrap().nonce, Some(2));
}
