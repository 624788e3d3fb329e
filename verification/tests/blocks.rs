use block_repair::block_cache::EquivocatingBlocks;
use block_repair::block_generation::{
    BlockGeneration, CachedEquivocatingBlock, LedgerError, ParentMeta, ShredderError, SlotMeta,
};
use block_repair::shredding::{
    append_data_payloads, first_data_payload, merkle_root_of_data, BatchContent, Shred,
};

fn hex(bytes: &[u8]) -> String {
    bytes.iter().map(|byte| format!("{byte:02x}")).collect()
}

fn data(payload: u8, root: Option<u8>) -> Shred {
    Shred { is_data: true, merkle_root: root.map(|byte| [byte; 32]), payload: vec![payload] }
}

fn coding(payload: u8, root: Option<u8>) -> Shred {
    Shred { is_data: false, ..data(payload, root) }
}

fn start(slot: u64, requester: u8) -> BlockGeneration {
    BlockGeneration { slot, requester: [requester; 32], keypair: [99; 32] }
}

fn parent(slot: u64) -> Result<Option<SlotMeta>, LedgerError> {
    Ok(Some(SlotMeta { parent_slot: Some(slot) }))
}

fn parent_block(id: u8) -> Result<Option<ParentMeta>, LedgerError> {
    Ok(Some(ParentMeta { parent_block_id: [id; 32] }))
}

#[test]
fn first_data_shred_is_found() {
    let shreds = vec![coding(1, Some(1)), data(2, None), data(3, Some(3))];
    assert_eq!(merkle_root_of_data(&shreds), None);
    assert_eq!(first_data_payload(shreds), Some(vec![2]));
    let shreds = vec![coding(1, Some(1)), data(3, Some(3))];
    assert_eq!(merkle_root_of_data(&shreds), Some([3; 32]));
    assert_eq!(first_data_payload(vec![coding(1, None)]), None);
    assert_eq!(first_data_payload(vec![]), None);
}

#[test]
fn only_data_shreds_are_appended() {
    let mut payloads = vec![vec![9]];
    append_data_payloads(&mut payloads, vec![data(1, None), coding(2, None), data(3, None)]);
    assert_eq!(payloads, vec![vec![9], vec![1], vec![3]]);
}

#[test]
fn block_needs_a_known_parent() {
    assert!(start(1, 1).with_slot_meta(Err(LedgerError)).is_none());
    assert!(start(1, 1).with_slot_meta(Ok(None)).is_none());
    assert!(start(1, 1).with_slot_meta(Ok(Some(SlotMeta { parent_slot: None }))).is_none());
    assert!(start(1, 1).with_slot_meta(parent(0)).is_some());
}

#[test]
fn unknown_parent_block_is_all_zeros() {
    let failed = start(1, 1).with_slot_meta(parent(0)).unwrap();
    assert_eq!(failed.with_parent_meta(Err(LedgerError)).parent_block_id, [0; 32]);
    let absent = start(1, 1).with_slot_meta(parent(0)).unwrap();
    assert_eq!(absent.with_parent_meta(Ok(None)).parent_block_id, [0; 32]);
    let known = start(1, 1).with_slot_meta(parent(0)).unwrap();
    assert_eq!(known.with_parent_meta(parent_block(5)).parent_block_id, [5; 32]);
}

#[test]
fn block_needs_a_shredder() {
    let stage = start(42, 7).with_slot_meta(parent(41)).unwrap().with_parent_meta(Ok(None));
    let params = stage.shredder();
    assert_eq!(
        (params.slot, params.parent_slot, params.reference_tick, params.version),
        (42, 41, 0, 0)
    );
    assert!(stage.with_shredder(Err(ShredderError)).is_none());
}

#[test]
fn block_is_chained_from_header_to_footer() {
    let header = start(42, 7)
        .with_slot_meta(parent(41))
        .unwrap()
        .with_parent_meta(parent_block(5))
        .with_shredder(Ok(()))
        .unwrap();
    let batch = header.batch();
    match batch.content {
        BatchContent::Header(marker) => {
            assert_eq!(marker.parent_slot, 41);
            assert_eq!(marker.parent_block_id, [5; 32]);
        }
        _ => panic!("not a header"),
    }
    assert_eq!(batch.keypair, [99; 32]);
    assert!(!batch.is_last_in_slot);
    assert_eq!((batch.next_shred_index, batch.next_code_index), (0, 0));
    assert_eq!(
        hex(&batch.chained_merkle_root.unwrap()),
        "3ab65c424044a03498e4de37f7edc4d18aa2605f08f75326f1ce25652b78a82d"
    );

    let entry = header.with_header_shreds(vec![coding(1, Some(1)), data(2, Some(2))]);
    let batch = entry.batch();
    match batch.content {
        BatchContent::Entry(entry) => {
            assert_eq!(entry.num_hashes, 1);
            assert_eq!(
                hex(&entry.hash),
                "0a376467db0bc97699a20104a69d79fd7b1a975a6e2d4f26a5301c42dbff3c60"
            );
        }
        _ => panic!("not an entry"),
    }
    assert_eq!(batch.keypair, [99; 32]);
    assert!(!batch.is_last_in_slot);
    assert_eq!((batch.next_shred_index, batch.next_code_index), (32, 32));
    assert_eq!(batch.chained_merkle_root, Some([2; 32]));

    let footer = entry.with_entry_shreds(vec![data(3, Some(3)), data(4, Some(4))]);
    let batch = footer.batch();
    match batch.content {
        BatchContent::Footer(marker) => {
            assert_eq!(marker.bank_hash, [0; 32]);
            assert_eq!(marker.block_producer_time_nanos, 0);
            assert!(marker.block_user_agent.is_empty());
        }
        _ => panic!("not a footer"),
    }
    assert_eq!(batch.keypair, [99; 32]);
    assert!(batch.is_last_in_slot);
    assert_eq!((batch.next_shred_index, batch.next_code_index), (64, 64));
    assert_eq!(batch.chained_merkle_root, Some([3; 32]));

    let block = footer.with_footer_shreds(vec![data(5, None), coding(6, None)]);
    assert_eq!(block.shreds, vec![vec![2], vec![3], vec![4], vec![5]]);
}

fn seed_of(slot: u64, requester: u8) -> [u8; 32] {
    start(slot, requester)
        .with_slot_meta(parent(0))
        .unwrap()
        .with_parent_meta(Ok(None))
        .with_shredder(Ok(()))
        .unwrap()
        .batch()
        .chained_merkle_root
        .unwrap()
}

#[test]
fn seeds_differ_by_slot_and_requester() {
    assert_eq!(seed_of(1, 1), seed_of(1, 1));
    assert_ne!(seed_of(1, 1), seed_of(1, 2));
    assert_ne!(seed_of(1, 1), seed_of(2, 1));
}

#[test]
fn full_block_has_its_shreds_at_their_index() {
    let part = |first: u8| (first..first + 32).map(|n| data(n, Some(n))).collect::<Vec<_>>();
    let block = start(1, 1)
        .with_slot_meta(parent(0))
        .unwrap()
        .with_parent_meta(Ok(None))
        .with_shredder(Ok(()))
        .unwrap()
        .with_header_shreds(part(0))
        .with_entry_shreds(part(32))
        .with_footer_shreds(part(64));
    assert_eq!(block.shreds.len(), 96);
    for index in 0..96u8 {
        assert_eq!(block.shreds[index as usize], vec![index]);
    }
}

fn block(bytes: &[u8]) -> Option<CachedEquivocatingBlock> {
    Some(CachedEquivocatingBlock { shreds: bytes.iter().map(|byte| vec![*byte]).collect() })
}

#[test]
fn requester_keeps_the_block_it_got() {
    let mut blocks = EquivocatingBlocks::new();
    assert!(!blocks.contains_key(1, &[1; 32]));
    assert_eq!(blocks.get_equivocating_shred(1, 0, &[1; 32], None), None);
    assert!(!blocks.contains_key(1, &[1; 32]));
    assert_eq!(blocks.get_equivocating_shred(1, 1, &[1; 32], block(&[10, 11])), Some(vec![11]));
    assert!(blocks.contains_key(1, &[1; 32]));
    assert_eq!(blocks.get_equivocating_shred(1, 0, &[2; 32], block(&[20])), Some(vec![20]));
    assert_eq!(blocks.get_equivocating_shred(2, 0, &[1; 32], block(&[30])), Some(vec![30]));
    assert_eq!(blocks.get_equivocating_shred(1, 0, &[1; 32], block(&[99])), Some(vec![10]));
    assert_eq!(blocks.get_equivocating_shred(1, 1, &[1; 32], None), Some(vec![11]));
    assert_eq!(blocks.get_equivocating_shred(1, 2, &[1; 32], None), None);
    assert_eq!(blocks.get_equivocating_shred(1, 0, &[2; 32], None), Some(vec![20]));
    assert_eq!(blocks.get_equivocating_shred(1, u64::MAX, &[2; 32], None), None);
}
