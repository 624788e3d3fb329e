use block_repair::block_cache::EquivocatingBlocks;
use block_repair::block_generation::{CachedEquivocatingBlock, ShredderError};
use block_repair::malicious_repair_handler::{
    IpOctets, MaliciousRepairConfig, MaliciousRepairHandler,
};
use block_repair::repair_response::{RepairStep, ResponseKind};
use block_repair::shred_generation::{OriginalShred, ShredError};
use block_repair::shredding::{BatchContent, Shred};

const SECRET: [u8; 32] = [0; 32];
const LOCALHOST: IpOctets = IpOctets::V4([127, 0, 0, 1]);

fn hex(bytes: &[u8]) -> String {
    bytes.iter().map(|byte| format!("{byte:02x}")).collect()
}

/// The Ed25519 public key of the secret key of all zeros.
fn own_pubkey() -> [u8; 32] {
    let digits = "3b6a27bcceb6a42d62a3a8d02a6f0d73653215771de243a63ac048a18b59da29";
    let mut pubkey = [0u8; 32];
    for (i, byte) in pubkey.iter_mut().enumerate() {
        *byte = u8::from_str_radix(&digits[2 * i..2 * i + 2], 16).unwrap();
    }
    pubkey
}

fn handler(slot: Option<u64>, index: Option<u64>, per_requester: bool) -> MaliciousRepairHandler {
    MaliciousRepairHandler::new(
        SECRET,
        MaliciousRepairConfig {
            bad_shred_slot_frequency: slot,
            bad_shred_index_frequency: index,
            per_requester_equivocation: per_requester,
        },
    )
}

/// The answers to the questions of a request, each good for one question.
struct Answers {
    leader: Option<[u8; 32]>,
    equivocating: Option<Vec<u8>>,
    location: Option<u8>,
    original: Option<Vec<u8>>,
    parsed: Option<OriginalShred>,
    shredder: Result<(), ShredderError>,
    shreds: Vec<Shred>,
}

fn original_shred(parent: Result<u64, ShredError>) -> OriginalShred {
    OriginalShred {
        slot: 12,
        parent,
        version: 3,
        chained_merkle_root: Ok([4; 32]),
        last_in_slot: true,
    }
}

fn answers() -> Answers {
    Answers {
        leader: Some(own_pubkey()),
        equivocating: Some(vec![1]),
        location: Some(0),
        original: Some(vec![2]),
        parsed: Some(original_shred(Ok(11))),
        shredder: Ok(()),
        shreds: vec![
            Shred { is_data: false, merkle_root: None, payload: vec![8] },
            Shred { is_data: true, merkle_root: None, payload: vec![3] },
        ],
    }
}

fn run(
    handler: &MaliciousRepairHandler,
    slot: u64,
    shred_index: u64,
    block_id: Option<[u8; 32]>,
    answers: Answers,
) -> Option<(ResponseKind, Vec<u8>)> {
    let mut answers = answers;
    let mut step: RepairStep<u8> =
        handler.repair_response_packet(slot, shred_index, block_id, LOCALHOST);
    loop {
        step = match step {
            RepairStep::LookUpLeader(waiting) => waiting.with_leader(answers.leader),
            RepairStep::GetEquivocatingShred(waiting) => {
                assert_eq!(
                    hex(&waiting.requester),
                    "b42e9a90d6793c8259b302b51d1e32294abea169379a68d9c3e92e5f5a6359d2"
                );
                waiting.with_equivocating_shred(answers.equivocating.take())
            }
            RepairStep::LocateBlock(waiting) => {
                assert_eq!(Some(waiting.block_id), block_id);
                waiting.with_location(answers.location)
            }
            RepairStep::ReadShred(waiting) => {
                assert_eq!(waiting.location.is_some(), block_id.is_some());
                waiting.with_shred(answers.original.take())
            }
            RepairStep::LookUpLeaderOfShred(waiting) => waiting.with_leader(answers.leader),
            RepairStep::ParseShred(waiting) => {
                waiting.with_parsed(answers.parsed.take().ok_or(ShredError))
            }
            RepairStep::MakeShredder(waiting) => {
                let params = waiting.generation.shredder();
                assert_eq!(
                    (params.slot, params.parent_slot, params.reference_tick, params.version),
                    (12, 11, 0, 3)
                );
                let shredder = std::mem::replace(&mut answers.shredder, Ok(()));
                waiting.with_shredder(shredder)
            }
            RepairStep::MakeShreds(waiting) => {
                let batch = waiting.generation.batch();
                assert_eq!(batch.keypair, *handler.signing_key());
                assert!(batch.is_last_in_slot);
                assert_eq!(batch.chained_merkle_root, Some([4; 32]));
                assert_eq!(batch.next_shred_index, shred_index as u32);
                assert_eq!(batch.next_code_index, 0);
                waiting.with_shreds(std::mem::take(&mut answers.shreds))
            }
            RepairStep::Respond(kind, shred) => return Some((kind, shred)),
            RepairStep::Decline => return None,
        };
    }
}

#[test]
fn default_config_is_harmless() {
    let config = MaliciousRepairConfig::default();
    assert_eq!(config.bad_shred_slot_frequency, None);
    assert_eq!(config.bad_shred_index_frequency, None);
    assert!(!config.per_requester_equivocation);
    let honest = MaliciousRepairHandler::new(SECRET, config);
    assert!(!honest.should_respond_maliciously(0, 0));
    assert_eq!(run(&honest, 0, 0, None, answers()), Some((ResponseKind::Original, vec![2])));
}

#[test]
fn every_frequency_that_is_set_must_match() {
    let both = handler(Some(3), Some(4), false);
    assert!(both.should_respond_maliciously(6, 8));
    assert!(!both.should_respond_maliciously(6, 9));
    assert!(!both.should_respond_maliciously(7, 8));
    let slot_only = handler(Some(3), None, false);
    assert!(slot_only.should_respond_maliciously(6, 9));
    assert!(!slot_only.should_respond_maliciously(7, 8));
    let index_only = handler(None, Some(4), false);
    assert!(index_only.should_respond_maliciously(7, 8));
    assert!(!index_only.should_respond_maliciously(6, 9));
}

#[test]
fn leader_is_known_by_its_public_key() {
    let honest = handler(None, None, false);
    assert!(honest.is_leader_for_slot(Some(own_pubkey())));
    assert!(!honest.is_leader_for_slot(Some(SECRET)));
    assert!(!honest.is_leader_for_slot(Some([9; 32])));
    assert!(!honest.is_leader_for_slot(None));
}

#[test]
fn shreds_are_signed_with_the_key_of_the_node() {
    let node = MaliciousRepairHandler::new([5; 32], MaliciousRepairConfig::default());
    assert_eq!(*node.signing_key(), [5; 32]);
    assert_eq!(node.generate_equivocating_block(1, [6; 32]).keypair, [5; 32]);
    let generation = node.generate_equivocating_shred(&original_shred(Ok(11)), 6).unwrap();
    assert_eq!(generation.batch().keypair, [5; 32]);
}

#[test]
fn identity_is_the_digest_of_the_address() {
    let honest = handler(None, None, false);
    assert_eq!(
        hex(&honest.requester_identity(&LOCALHOST)),
        "b42e9a90d6793c8259b302b51d1e32294abea169379a68d9c3e92e5f5a6359d2"
    );
    let mut octets = [0u8; 16];
    octets[15] = 1;
    assert_eq!(
        hex(&honest.requester_identity(&IpOctets::V6(octets))),
        "7c3ccd10bb7ec37b46d37926ae6274267f007a34aeaf15c882a715a7f3300529"
    );
}

#[test]
fn block_generation_starts_with_slot_and_requester() {
    let start = handler(None, None, true).generate_equivocating_block(5, [6; 32]);
    assert_eq!((start.slot, start.requester), (5, [6; 32]));
    assert_eq!(start.keypair, SECRET);
}

#[test]
fn requester_gets_a_shred_of_its_block() {
    let per_requester = handler(Some(1), None, true);
    assert_eq!(
        run(&per_requester, 5, 6, None, answers()),
        Some((ResponseKind::PerRequester, vec![1]))
    );
    let none = Answers { equivocating: None, ..answers() };
    assert_eq!(
        run(&per_requester, 5, 6, None, none),
        Some((ResponseKind::Original, vec![2]))
    );
}

#[test]
fn requester_gets_the_same_shred_again() {
    let per_requester = handler(Some(1), None, true);
    let mut blocks = EquivocatingBlocks::new();
    let made = |byte: u8| Some(CachedEquivocatingBlock { shreds: vec![vec![byte], vec![byte + 1]] });
    let mut ask = |ip: IpOctets, index: u64, generated: Option<CachedEquivocatingBlock>| {
        let requester = per_requester.requester_identity(&ip);
        let equivocating = blocks.get_equivocating_shred(5, index, &requester, generated);
        run(&per_requester, 5, index, None, Answers { equivocating, ..answers() })
    };
    let other = IpOctets::V4([10, 0, 0, 1]);
    assert_eq!(ask(LOCALHOST, 0, made(20)), Some((ResponseKind::PerRequester, vec![20])));
    assert_eq!(ask(other, 0, made(30)), Some((ResponseKind::PerRequester, vec![30])));
    assert_eq!(ask(LOCALHOST, 0, made(40)), Some((ResponseKind::PerRequester, vec![20])));
    assert_eq!(ask(LOCALHOST, 1, None), Some((ResponseKind::PerRequester, vec![21])));
}

#[test]
fn single_shred_is_replaced() {
    let per_shred = handler(None, Some(2), false);
    assert_eq!(
        run(&per_shred, 5, 6, None, answers()),
        Some((ResponseKind::PerShred, vec![3]))
    );
    assert_eq!(
        run(&per_shred, 5, (1 << 32) + 6, None, answers()),
        Some((ResponseKind::PerShred, vec![3]))
    );
}

#[test]
fn stored_shred_is_the_fallback() {
    let per_shred = handler(None, Some(2), false);
    let stored = Some((ResponseKind::Original, vec![2]));
    let cases = [
        Answers { leader: None, ..answers() },
        Answers { leader: Some([9; 32]), ..answers() },
        Answers { parsed: None, ..answers() },
        Answers { parsed: Some(original_shred(Err(ShredError))), ..answers() },
        Answers { shredder: Err(ShredderError), ..answers() },
        Answers { shreds: vec![], ..answers() },
    ];
    for case in cases {
        assert_eq!(run(&per_shred, 5, 6, None, case), stored);
    }
    assert_eq!(run(&per_shred, 5, 7, None, answers()), stored);
    let per_requester = handler(None, Some(2), true);
    assert_eq!(
        run(&per_requester, 5, 6, None, Answers { leader: None, ..answers() }),
        stored
    );
    assert_eq!(run(&per_requester, 5, 7, None, answers()), stored);
}

#[test]
fn named_block_is_answered_from_the_ledger() {
    for per_requester in [false, true] {
        let malicious = handler(Some(1), None, per_requester);
        assert_eq!(
            run(&malicious, 5, 6, Some([3; 32]), answers()),
            Some((ResponseKind::Original, vec![2]))
        );
        let unknown = Answers { location: None, ..answers() };
        assert_eq!(run(&malicious, 5, 6, Some([3; 32]), unknown), None);
    }
}

#[test]
fn missing_shred_is_not_answered() {
    for per_requester in [false, true] {
        let malicious = handler(Some(1), None, per_requester);
        let missing = Answers { original: None, equivocating: None, ..answers() };
        assert_eq!(run(&malicious, 5, 6, None, missing), None);
    }
}

#[test]
fn zero_frequency_is_not_divided_by_unless_leader() {
    let malicious = handler(Some(0), None, false);
    assert_eq!(
        run(&malicious, 5, 6, None, Answers { leader: None, ..answers() }),
        Some((ResponseKind::Original, vec![2]))
    );
}

#[test]
fn replacement_entries_differ() {
    let generation = handler(None, None, false)
        .generate_equivocating_shred(&original_shred(Ok(11)), 6)
        .unwrap();
    let hash = |content| match content {
        BatchContent::Entry(entry) => entry.hash,
        _ => panic!("not an entry"),
    };
    let first = hash(generation.batch().content);
    let second = hash(generation.batch().content);
    assert_ne!(first, second);
    let fixed = generation.batch_from(&[3; 32]);
    assert_eq!(
        hex(&hash(fixed.content)),
        "648aa5c579fb30f38af744d97d6ec840c7a91277a499a0d780f3e7314eca090b"
    );
}

#[test]
fn replacement_without_chained_root_is_not_chained() {
    let original = OriginalShred { chained_merkle_root: Err(ShredError), ..original_shred(Ok(1)) };
    let generation =
        handler(None, None, false).generate_equivocating_shred(&original, 6).unwrap();
    assert_eq!(generation.batch().chained_merkle_root, None);
}
