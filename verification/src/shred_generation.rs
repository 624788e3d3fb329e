//! The making of a single shred in place of another: legitimate but with other data.
use crate::hashing::{counter_hash, draw_hash, is_drawn, new_entry, sha256, sha256_chain};
use crate::malicious_repair_handler::MaliciousRepairHandler;
use crate::shredding::{BatchContent, ShredBatch, ShredderParams};
use solana_clock::Slot;
use vstd::prelude::*;

verus! {

/// A shred could not be read, or does not have what it was asked for.
pub struct ShredError;

/// What a stored shred says of itself.
pub struct OriginalShred {
    pub slot: Slot,
    pub parent: Result<Slot, ShredError>,
    pub version: u16,
    pub chained_merkle_root: Result<[u8; 32], ShredError>,
    pub last_in_slot: bool,
}

/// What is needed to make a shred that stands in for another.
pub struct ShredGeneration {
    pub slot: Slot,
    pub parent_slot: Slot,
    pub version: u16,
    pub is_last_in_slot: bool,
    pub chained_merkle_root: Option<[u8; 32]>,
    pub shred_index: u64,
    /// The secret key that the shred is signed with.
    pub keypair: [u8; 32],
}

/// What is needed to make a shred, signed with `keypair`, in place of `original`, where that one
/// has a parent.
pub open spec fn generation_for(
    original: OriginalShred,
    shred_index: u64,
    keypair: [u8; 32],
) -> Option<ShredGeneration> {
    match original.parent {
        Ok(parent_slot) => Some(
            ShredGeneration {
                slot: original.slot,
                parent_slot,
                version: original.version,
                is_last_in_slot: original.last_in_slot,
                chained_merkle_root: match original.chained_merkle_root {
                    Ok(root) => Some(root),
                    Err(_) => None,
                },
                shred_index,
                keypair,
            },
        ),
        Err(_) => None,
    }
}

impl MaliciousRepairHandler {
    /// Starts to generate an equivocating shred - a legitimately signed shred with different data -
    /// with the slot parameters of `original`; ends where that one has no parent.
    pub fn generate_equivocating_shred(&self, original: &OriginalShred, shred_index: u64) -> (
    generation: Option<ShredGeneration>)
        ensures
            generation == generation_for(*original, shred_index, self.secret_key()),
    {
        let parent_slot = match original.parent {
            Ok(parent_slot) => parent_slot,
            Err(_) => {
                return None;
            },
        };
        let chained_merkle_root = match original.chained_merkle_root {
            Ok(root) => Some(root),
            Err(_) => None,
        };
        Some(
            ShredGeneration {
                slot: original.slot,
                parent_slot,
                version: original.version,
                is_last_in_slot: original.last_in_slot,
                chained_merkle_root,
                shred_index,
                keypair: *self.signing_key(),
            },
        )
    }
}

impl ShredGeneration {
    /// What the shredder is to be made for: as the original, but at tick zero.
    pub open spec fn shredder_params(self) -> ShredderParams {
        ShredderParams {
            slot: self.slot,
            parent_slot: self.parent_slot,
            reference_tick: 0,
            version: self.version,
        }
    }

    /// Whether `batch` is the order for a shred that carries one entry, a single hash away from
    /// `fake_hash`, at the index of the original, signed with the key, and chained as the original.
    pub open spec fn ordered(self, fake_hash: Seq<u8>, batch: ShredBatch) -> bool {
        &&& batch.keypair == self.keypair
        &&& batch.content matches BatchContent::Entry(entry)
        &&& entry.num_hashes == 1
        &&& entry.hash@ == sha256(seq![fake_hash])
        &&& batch.is_last_in_slot == self.is_last_in_slot
        &&& batch.chained_merkle_root == self.chained_merkle_root
        &&& batch.next_shred_index == self.shred_index as u32
        &&& batch.next_code_index == 0
    }

    /// What the shredder is to be made for.
    pub fn shredder(&self) -> (params: ShredderParams)
        ensures
            params == self.shredder_params(),
    {
        ShredderParams {
            slot: self.slot,
            parent_slot: self.parent_slot,
            reference_tick: 0,
            version: self.version,
        }
    }

    /// The order for the shred, from this hash.
    pub fn batch_from(&self, fake_hash: &[u8; 32]) -> (batch: ShredBatch)
        ensures
            self.ordered(fake_hash@, batch),
    {
        reveal_with_fuel(sha256_chain, 2);
        ShredBatch {
            keypair: self.keypair,
            content: BatchContent::Entry(new_entry(fake_hash, 1)),
            is_last_in_slot: self.is_last_in_slot,
            chained_merkle_root: self.chained_merkle_root,
            next_shred_index: #[verifier::truncate] (self.shred_index as u32),
            next_code_index: 0,
        }
    }

    /// The order for the shred, from the next hash of the counter that the process shares.
    pub fn batch(&self) -> (batch: ShredBatch)
        ensures
            exists|fake_hash: [u8; 32]|
                is_drawn(fake_hash) && counter_hash(fake_hash@) && #[trigger] self.ordered(
                    fake_hash@,
                    batch,
                ),
    {
        let fake_hash = draw_hash();
        self.batch_from(&fake_hash)
    }
}

/// A shred that is made in place of a stored one has everything but its data from it: its slot, its
/// parent, its version, whether it ends the slot, and the root that it is chained to, if it has one.
/// It stands at the index that was asked for, of which the shredder takes the lower half, and is
/// signed with the key of this node. Its data is one entry, a single hash away from `fake_hash`.
pub proof fn law_replacement_takes_after_the_stored_shred(
    handler: MaliciousRepairHandler,
    original: OriginalShred,
    shred_index: u64,
    generation: ShredGeneration,
    params: ShredderParams,
    fake_hash: [u8; 32],
    batch: ShredBatch,
)
    requires
        call_ensures(
            MaliciousRepairHandler::generate_equivocating_shred,
            (&handler, &original, shred_index),
            Some(generation),
        ),
        call_ensures(ShredGeneration::shredder, (&generation,), params),
        call_ensures(ShredGeneration::batch_from, (&generation, &fake_hash), batch),
    ensures
        params.slot == original.slot,
        original.parent == Ok::<Slot, ShredError>(params.parent_slot),
        params.version == original.version,
        params.reference_tick == 0,
        batch.is_last_in_slot == original.last_in_slot,
        original.chained_merkle_root matches Ok(root) ==> batch.chained_merkle_root == Some(root),
        original.chained_merkle_root is Err ==> batch.chained_merkle_root is None,
        batch.next_shred_index == shred_index % 0x1_0000_0000,
        batch.next_code_index == 0,
        batch.keypair == handler.secret_key(),
        batch.content matches BatchContent::Entry(entry) && entry.num_hashes == 1 && entry.hash@
            == sha256(seq![fake_hash@]),
{
    lemma_lower_half(shred_index);
}

/// The same of a shred whose data comes from the counter that the process shares: whatever hash it
/// gives, only the data depends on it.
pub proof fn law_drawn_replacement_takes_after_the_stored_shred(
    handler: MaliciousRepairHandler,
    original: OriginalShred,
    shred_index: u64,
    generation: ShredGeneration,
    batch: ShredBatch,
)
    requires
        call_ensures(
            MaliciousRepairHandler::generate_equivocating_shred,
            (&handler, &original, shred_index),
            Some(generation),
        ),
        call_ensures(ShredGeneration::batch, (&generation,), batch),
    ensures
        batch.is_last_in_slot == original.last_in_slot,
        original.chained_merkle_root matches Ok(root) ==> batch.chained_merkle_root == Some(root),
        original.chained_merkle_root is Err ==> batch.chained_merkle_root is None,
        batch.next_shred_index == shred_index % 0x1_0000_0000,
        batch.next_code_index == 0,
        batch.keypair == handler.secret_key(),
        batch.content matches BatchContent::Entry(entry) && entry.num_hashes == 1 && exists|
            fake_hash: [u8; 32],
        | #[trigger] is_drawn(fake_hash) && entry.hash@ == sha256(seq![fake_hash@]),
{
    lemma_lower_half(shred_index);
}

/// A shred is made in place of a stored one exactly where that one has a parent.
pub proof fn law_replacement_needs_a_parent(
    handler: MaliciousRepairHandler,
    original: OriginalShred,
    shred_index: u64,
    generation: Option<ShredGeneration>,
)
    requires
        call_ensures(
            MaliciousRepairHandler::generate_equivocating_shred,
            (&handler, &original, shred_index),
            generation,
        ),
    ensures
        generation is Some <==> original.parent is Ok,
{
}

/// The lower half of an index.
proof fn lemma_lower_half(index: u64)
    ensures
        index as u32 == index % 0x1_0000_0000,
{
    assert(index as u32 == index % 0x1_0000_0000) by (bit_vector);
}

} // verus!
