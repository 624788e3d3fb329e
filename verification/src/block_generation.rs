//! The making of a whole block for one requester: a header, one entry and a footer, each cut into
//! shreds and chained to the one before. Every stage is a type of its own, which takes the answer
//! of the ledger or of the shredder to the stage that follows.
use crate::hashing::{hash_parts, new_entry, sha256, sha256_chain};
use crate::shredding::{
    append_data_payloads, data_payloads, first_data_root, law_first_data_shred_has_none_before,
    law_no_data_shred_no_first_one, law_payloads_of_data_shreds, merkle_root_of_data, BatchContent,
    BlockFooter, BlockHeader, Shred, ShredBatch, ShredderParams,
};
use solana_clock::Slot;
use vstd::bytes::{lemma_auto_spec_u64_to_from_le_bytes, spec_u64_to_le_bytes, u64_to_le_bytes};
use vstd::prelude::*;
use vstd::utf8::{encode_utf8, encode_utf8_decode_utf8};

verus! {

/// The ledger could not be read.
pub struct LedgerError;

/// What the ledger knows of a slot.
pub struct SlotMeta {
    pub parent_slot: Option<Slot>,
}

/// What the ledger knows of the parent of a slot.
pub struct ParentMeta {
    pub parent_block_id: [u8; 32],
}

/// The shredder refused its parameters.
pub struct ShredderError;

/// The block made for one requester.
pub struct CachedEquivocatingBlock {
    /// The payloads of the data shreds: those of the header, then of the entry, then of the footer.
    pub shreds: Vec<Vec<u8>>,
}

/// The hash of all zeros.
pub open spec fn zero_hash() -> Seq<u8> {
    Seq::new(32, |i: int| 0u8)
}

/// What is hashed for the block of `slot` that `requester` gets, to the end that `tag` names.
pub open spec fn seed_parts(slot: Slot, requester: Seq<u8>, tag: Seq<char>) -> Seq<Seq<u8>> {
    seq![spec_u64_to_le_bytes(slot), requester, encode_utf8(tag)]
}

/// The digest of [`seed_parts`].
fn seed(slot: Slot, requester: &[u8; 32], tag: &str) -> (digest: [u8; 32])
    ensures
        digest@ == sha256(seed_parts(slot, requester@, tag@)),
{
    let slot_bytes: Vec<u8> = u64_to_le_bytes(slot);
    let parts: Vec<&[u8]> = vec![slot_bytes.as_slice(), requester.as_slice(), tag.as_bytes()];
    assert(parts@.map_values(|part: &[u8]| part@) =~= seed_parts(slot, requester@, tag@));
    hash_parts(parts.as_slice())
}

/// Nothing is known yet but who asked for which slot. The next stage takes what the ledger knows
/// of the slot.
pub struct BlockGeneration {
    pub slot: Slot,
    pub requester: [u8; 32],
    /// The secret key that the shreds are signed with.
    pub keypair: [u8; 32],
}

/// The parent of the slot is known. The next stage takes what the ledger knows of the parent.
pub struct AwaitingParentMeta {
    pub slot: Slot,
    pub requester: [u8; 32],
    /// The secret key that the shreds are signed with.
    pub keypair: [u8; 32],
    pub parent_slot: Slot,
}

/// The parent block is known. The next stage takes whether there is a shredder.
pub struct AwaitingShredder {
    pub slot: Slot,
    pub requester: [u8; 32],
    /// The secret key that the shreds are signed with.
    pub keypair: [u8; 32],
    pub parent_slot: Slot,
    pub parent_block_id: [u8; 32],
}

/// There is a shredder. The next stage takes the shreds of the header.
pub struct AwaitingHeaderShreds {
    pub slot: Slot,
    pub requester: [u8; 32],
    /// The secret key that the shreds are signed with.
    pub keypair: [u8; 32],
    pub parent_slot: Slot,
    pub parent_block_id: [u8; 32],
}

/// The header is made. The next stage takes the shreds of the entry.
pub struct AwaitingEntryShreds {
    pub slot: Slot,
    pub requester: [u8; 32],
    /// The secret key that the shreds are signed with.
    pub keypair: [u8; 32],
    pub header_merkle_root: Option<[u8; 32]>,
    pub all_shreds: Vec<Vec<u8>>,
}

/// The entry is made. The block is complete with the shreds of the footer.
pub struct AwaitingFooterShreds {
    /// The secret key that the shreds are signed with.
    pub keypair: [u8; 32],
    pub entry_merkle_root: Option<[u8; 32]>,
    pub all_shreds: Vec<Vec<u8>>,
}

/// The slot's parent, where the ledger could be read and knows it.
pub open spec fn known_parent_slot(meta: Result<Option<SlotMeta>, LedgerError>) -> Option<Slot> {
    match meta {
        Ok(Some(slot_meta)) => slot_meta.parent_slot,
        _ => None,
    }
}

/// The id of the parent block, or the hash of all zeros where the ledger could not be read or does
/// not know it.
pub open spec fn parent_block_id_or_zero(meta: Result<Option<ParentMeta>, LedgerError>) -> Seq<u8> {
    match meta {
        Ok(Some(parent_meta)) => parent_meta.parent_block_id@,
        _ => zero_hash(),
    }
}

impl BlockGeneration {
    /// The stage that follows what the ledger knows of the slot.
    pub open spec fn after_slot_meta(self, meta: Result<Option<SlotMeta>, LedgerError>) -> Option<
        AwaitingParentMeta,
    > {
        match known_parent_slot(meta) {
            Some(parent_slot) => Some(
                AwaitingParentMeta {
                    slot: self.slot,
                    requester: self.requester,
                    keypair: self.keypair,
                    parent_slot,
                },
            ),
            None => None,
        }
    }

    /// Goes on with what the ledger knows of the slot; ends where no parent is known.
    pub fn with_slot_meta(self, meta: Result<Option<SlotMeta>, LedgerError>) -> (next: Option<
        AwaitingParentMeta,
    >)
        ensures
            next == self.after_slot_meta(meta),
    {
        let parent_slot = match meta {
            Ok(Some(slot_meta)) => slot_meta.parent_slot,
            _ => None,
        };
        match parent_slot {
            Some(parent_slot) => Some(
                AwaitingParentMeta {
                    slot: self.slot,
                    requester: self.requester,
                    keypair: self.keypair,
                    parent_slot,
                },
            ),
            None => None,
        }
    }
}

impl AwaitingParentMeta {
    /// Whether `next` follows what the ledger knows of the parent.
    pub open spec fn followed_by(
        self,
        meta: Result<Option<ParentMeta>, LedgerError>,
        next: AwaitingShredder,
    ) -> bool {
        &&& next.slot == self.slot
        &&& next.requester == self.requester
        &&& next.keypair == self.keypair
        &&& next.parent_slot == self.parent_slot
        &&& next.parent_block_id@ == parent_block_id_or_zero(meta)
    }

    /// Goes on with what the ledger knows of the parent.
    pub fn with_parent_meta(self, meta: Result<Option<ParentMeta>, LedgerError>) -> (next:
        AwaitingShredder)
        ensures
            self.followed_by(meta, next),
    {
        let parent_block_id = match meta {
            Ok(Some(parent_meta)) => parent_meta.parent_block_id,
            _ => [0u8; 32],
        };
        assert(meta is Err || meta->Ok_0 is None ==> parent_block_id@ =~= zero_hash());
        AwaitingShredder {
            slot: self.slot,
            requester: self.requester,
            keypair: self.keypair,
            parent_slot: self.parent_slot,
            parent_block_id,
        }
    }
}

impl AwaitingShredder {
    /// What the shredder is to be made for: the slot and its parent, at tick and version zero.
    pub open spec fn shredder_params(self) -> ShredderParams {
        ShredderParams {
            slot: self.slot,
            parent_slot: self.parent_slot,
            reference_tick: 0,
            version: 0,
        }
    }

    /// The stage that follows where there is a shredder.
    pub open spec fn after_shredder(self, shredder: Result<(), ShredderError>) -> Option<
        AwaitingHeaderShreds,
    > {
        match shredder {
            Ok(_) => Some(
                AwaitingHeaderShreds {
                    slot: self.slot,
                    requester: self.requester,
                    keypair: self.keypair,
                    parent_slot: self.parent_slot,
                    parent_block_id: self.parent_block_id,
                },
            ),
            Err(_) => None,
        }
    }

    /// What the shredder is to be made for.
    pub fn shredder(&self) -> (params: ShredderParams)
        ensures
            params == self.shredder_params(),
    {
        ShredderParams {
            slot: self.slot,
            parent_slot: self.parent_slot,
            reference_tick: 0,
            version: 0,
        }
    }

    /// Goes on with the shredder; ends where there is none.
    pub fn with_shredder(self, shredder: Result<(), ShredderError>) -> (next: Option<
        AwaitingHeaderShreds,
    >)
        ensures
            next == self.after_shredder(shredder),
    {
        match shredder {
            Ok(_) => Some(
                AwaitingHeaderShreds {
                    slot: self.slot,
                    requester: self.requester,
                    keypair: self.keypair,
                    parent_slot: self.parent_slot,
                    parent_block_id: self.parent_block_id,
                },
            ),
            Err(_) => None,
        }
    }
}

impl AwaitingHeaderShreds {
    /// Whether `batch` is the order for the header: the first shreds of the block, signed with the
    /// key, and chained to the seed of this slot and requester.
    pub open spec fn ordered(self, batch: ShredBatch) -> bool {
        &&& batch.keypair == self.keypair
        &&& batch.content == BatchContent::Header(
            BlockHeader { parent_slot: self.parent_slot, parent_block_id: self.parent_block_id },
        )
        &&& !batch.is_last_in_slot
        &&& batch.chained_merkle_root is Some
        &&& batch.chained_merkle_root->0@ == sha256(
            seed_parts(self.slot, self.requester@, "equivocation_seed"@),
        )
        &&& batch.next_shred_index == 0
        &&& batch.next_code_index == 0
    }

    /// Whether `next` follows these shreds of the header.
    pub open spec fn followed_by(self, header_shreds: Seq<Shred>, next: AwaitingEntryShreds) -> bool {
        &&& next.slot == self.slot
        &&& next.requester == self.requester
        &&& next.keypair == self.keypair
        &&& next.header_merkle_root == first_data_root(header_shreds)
        &&& next.all_shreds@ == data_payloads(header_shreds)
    }

    /// The order for the shreds of the header.
    pub fn batch(&self) -> (batch: ShredBatch)
        ensures
            self.ordered(batch),
    {
        ShredBatch {
            keypair: self.keypair,
            content: BatchContent::Header(
                BlockHeader {
                    parent_slot: self.parent_slot,
                    parent_block_id: self.parent_block_id,
                },
            ),
            is_last_in_slot: false,
            chained_merkle_root: Some(seed(self.slot, &self.requester, "equivocation_seed")),
            next_shred_index: 0,
            next_code_index: 0,
        }
    }

    /// Goes on with the shreds of the header.
    pub fn with_header_shreds(self, header_shreds: Vec<Shred>) -> (next: AwaitingEntryShreds)
        ensures
            self.followed_by(header_shreds@, next),
    {
        let header_merkle_root = merkle_root_of_data(&header_shreds);
        let mut all_shreds: Vec<Vec<u8>> = Vec::with_capacity(96);
        append_data_payloads(&mut all_shreds, header_shreds);
        assert(all_shreds@ =~= data_payloads(header_shreds@));
        AwaitingEntryShreds {
            slot: self.slot,
            requester: self.requester,
            keypair: self.keypair,
            header_merkle_root,
            all_shreds,
        }
    }
}

impl AwaitingEntryShreds {
    /// Whether `batch` is the order for the entry: it comes after the header, is signed with the
    /// same key, is chained to it, and carries one entry that is a single hash away from the seed of this slot and requester.
    pub open spec fn ordered(self, batch: ShredBatch) -> bool {
        &&& batch.keypair == self.keypair
        &&& batch.content matches BatchContent::Entry(entry)
        &&& entry.num_hashes == 1
        &&& entry.hash@ == sha256(
            seq![sha256(seed_parts(self.slot, self.requester@, "entry_data"@))],
        )
        &&& !batch.is_last_in_slot
        &&& batch.chained_merkle_root == self.header_merkle_root
        &&& batch.next_shred_index == 32
        &&& batch.next_code_index == 32
    }

    /// Whether `next` follows these shreds of the entry.
    pub open spec fn followed_by(self, entry_shreds: Seq<Shred>, next: AwaitingFooterShreds) -> bool {
        &&& next.keypair == self.keypair
        &&& next.entry_merkle_root == first_data_root(entry_shreds)
        &&& next.all_shreds@ == self.all_shreds@ + data_payloads(entry_shreds)
    }

    /// The order for the shreds of the entry.
    pub fn batch(&self) -> (batch: ShredBatch)
        ensures
            self.ordered(batch),
    {
        reveal_with_fuel(sha256_chain, 2);
        let unique_entry_hash = seed(self.slot, &self.requester, "entry_data");
        ShredBatch {
            keypair: self.keypair,
            content: BatchContent::Entry(new_entry(&unique_entry_hash, 1)),
            is_last_in_slot: false,
            chained_merkle_root: self.header_merkle_root,
            next_shred_index: 32,
            next_code_index: 32,
        }
    }

    /// Goes on with the shreds of the entry.
    pub fn with_entry_shreds(self, entry_shreds: Vec<Shred>) -> (next: AwaitingFooterShreds)
        ensures
            self.followed_by(entry_shreds@, next),
    {
        let entry_merkle_root = merkle_root_of_data(&entry_shreds);
        let mut all_shreds = self.all_shreds;
        append_data_payloads(&mut all_shreds, entry_shreds);
        AwaitingFooterShreds { keypair: self.keypair, entry_merkle_root, all_shreds }
    }
}

impl AwaitingFooterShreds {
    /// Whether `batch` is the order for the footer: it comes after the entry, is signed with the
    /// same key, is chained to it and ends the slot.
    pub open spec fn ordered(self, batch: ShredBatch) -> bool {
        &&& batch.keypair == self.keypair
        &&& batch.content matches BatchContent::Footer(footer)
        &&& footer.bank_hash@ == zero_hash()
        &&& footer.block_producer_time_nanos == 0
        &&& footer.block_user_agent@ == Seq::<u8>::empty()
        &&& batch.is_last_in_slot
        &&& batch.chained_merkle_root == self.entry_merkle_root
        &&& batch.next_shred_index == 64
        &&& batch.next_code_index == 64
    }

    /// Whether `block` is complete with these shreds of the footer.
    pub open spec fn completed(
        self,
        footer_shreds: Seq<Shred>,
        block: CachedEquivocatingBlock,
    ) -> bool {
        block.shreds@ == self.all_shreds@ + data_payloads(footer_shreds)
    }

    /// The order for the shreds of the footer.
    pub fn batch(&self) -> (batch: ShredBatch)
        ensures
            self.ordered(batch),
    {
        let bank_hash = [0u8; 32];
        assert(bank_hash@ =~= zero_hash());
        ShredBatch {
            keypair: self.keypair,
            content: BatchContent::Footer(
                BlockFooter {
                    bank_hash,
                    block_producer_time_nanos: 0,
                    block_user_agent: Vec::new(),
                },
            ),
            is_last_in_slot: true,
            chained_merkle_root: self.entry_merkle_root,
            next_shred_index: 64,
            next_code_index: 64,
        }
    }

    /// Completes the block with the shreds of the footer.
    pub fn with_footer_shreds(self, footer_shreds: Vec<Shred>) -> (block: CachedEquivocatingBlock)
        ensures
            self.completed(footer_shreds@, block),
    {
        let mut all_shreds = self.all_shreds;
        append_data_payloads(&mut all_shreds, footer_shreds);
        CachedEquivocatingBlock { shreds: all_shreds }
    }
}

/// A run of all stages that ends in a block: what the ledger and the shredder answered, and the
/// orders that the shredder got.
pub struct GenerationRun {
    pub start: BlockGeneration,
    pub slot_meta: Result<Option<SlotMeta>, LedgerError>,
    pub parent_meta: Result<Option<ParentMeta>, LedgerError>,
    pub awaiting_shredder: AwaitingShredder,
    pub header_batch: ShredBatch,
    pub header_shreds: Seq<Shred>,
    pub awaiting_entry: AwaitingEntryShreds,
    pub entry_batch: ShredBatch,
    pub entry_shreds: Seq<Shred>,
    pub awaiting_footer: AwaitingFooterShreds,
    pub footer_batch: ShredBatch,
    pub footer_shreds: Seq<Shred>,
    pub block: CachedEquivocatingBlock,
}

impl GenerationRun {
    /// Whether each stage of the run follows from the one before.
    pub open spec fn valid(self) -> bool {
        &&& self.start.after_slot_meta(self.slot_meta) matches Some(awaiting_parent)
        &&& awaiting_parent.followed_by(self.parent_meta, self.awaiting_shredder)
        &&& self.awaiting_shredder.after_shredder(Ok(())) matches Some(awaiting_header)
        &&& awaiting_header.ordered(self.header_batch)
        &&& awaiting_header.followed_by(self.header_shreds, self.awaiting_entry)
        &&& self.awaiting_entry.ordered(self.entry_batch)
        &&& self.awaiting_entry.followed_by(self.entry_shreds, self.awaiting_footer)
        &&& self.awaiting_footer.ordered(self.footer_batch)
        &&& self.awaiting_footer.completed(self.footer_shreds, self.block)
    }
}

/// A block consists of its header, its entry and its footer, in this order. The header names the
/// parent, is chained to the seed of the slot and the requester, and each of the others is chained
/// to the one before. All are signed with the one key, and only the footer ends the slot.
pub proof fn law_block_is_chained(run: GenerationRun)
    requires
        run.valid(),
    ensures
        run.block.shreds@ == data_payloads(run.header_shreds) + data_payloads(run.entry_shreds)
            + data_payloads(run.footer_shreds),
        run.awaiting_shredder.shredder_params() == (ShredderParams {
            slot: run.start.slot,
            parent_slot: known_parent_slot(run.slot_meta)->0,
            reference_tick: 0,
            version: 0,
        }),
        run.header_batch.content matches BatchContent::Header(header) && header.parent_slot
            == known_parent_slot(run.slot_meta)->0 && header.parent_block_id@
            == parent_block_id_or_zero(run.parent_meta),
        run.header_batch.chained_merkle_root is Some,
        run.header_batch.chained_merkle_root->0@ == sha256(
            seed_parts(run.start.slot, run.start.requester@, "equivocation_seed"@),
        ),
        run.entry_batch.content matches BatchContent::Entry(entry) && entry.hash@ == sha256(
            seq![sha256(seed_parts(run.start.slot, run.start.requester@, "entry_data"@))],
        ),
        run.entry_batch.chained_merkle_root == first_data_root(run.header_shreds),
        run.footer_batch.chained_merkle_root == first_data_root(run.entry_shreds),
        run.header_batch.keypair == run.start.keypair,
        run.entry_batch.keypair == run.start.keypair,
        run.footer_batch.keypair == run.start.keypair,
        !run.header_batch.is_last_in_slot,
        !run.entry_batch.is_last_in_slot,
        run.footer_batch.is_last_in_slot,
{
}

/// Where the shredder makes 32 data shreds of each part, the block has 96 of them, and each stands
/// at its shred index: that at which its part was ordered to begin, plus its place in the part.
pub proof fn law_shreds_stand_at_their_index(run: GenerationRun, i: int)
    requires
        run.valid(),
        data_payloads(run.header_shreds).len() == 32,
        data_payloads(run.entry_shreds).len() == 32,
        data_payloads(run.footer_shreds).len() == 32,
        0 <= i < 32,
    ensures
        run.block.shreds@.len() == 96,
        run.block.shreds@[run.header_batch.next_shred_index + i] == data_payloads(
            run.header_shreds,
        )[i],
        run.block.shreds@[run.entry_batch.next_shred_index + i] == data_payloads(
            run.entry_shreds,
        )[i],
        run.block.shreds@[run.footer_batch.next_shred_index + i] == data_payloads(
            run.footer_shreds,
        )[i],
{
}

/// Blocks differ by slot and by requester, and the two seeds of a block differ: what is hashed for
/// two of them is never the same, neither as a list of parts nor as the bytes in a row.
pub proof fn law_seeds_are_distinct(
    slot: Slot,
    requester: Seq<u8>,
    tag: Seq<char>,
    other_slot: Slot,
    other_requester: Seq<u8>,
    other_tag: Seq<char>,
)
    requires
        requester.len() == 32,
        other_requester.len() == 32,
        slot != other_slot || requester != other_requester || tag != other_tag,
    ensures
        seed_parts(slot, requester, tag) != seed_parts(other_slot, other_requester, other_tag),
        seed_parts(slot, requester, tag).flatten() != seed_parts(
            other_slot,
            other_requester,
            other_tag,
        ).flatten(),
{
    lemma_auto_spec_u64_to_from_le_bytes();
    encode_utf8_decode_utf8(tag);
    encode_utf8_decode_utf8(other_tag);
    let parts = seed_parts(slot, requester, tag);
    let other = seed_parts(other_slot, other_requester, other_tag);
    lemma_flatten_three(parts);
    lemma_flatten_three(other);
    if parts.flatten() == other.flatten() {
        assert(parts[0] =~= parts.flatten().take(8));
        assert(other[0] =~= other.flatten().take(8));
        assert(parts[1] =~= parts.flatten().subrange(8, 40));
        assert(other[1] =~= other.flatten().subrange(8, 40));
        assert(parts[2] =~= parts.flatten().skip(40));
        assert(other[2] =~= other.flatten().skip(40));
    }
}

proof fn lemma_flatten_three(parts: Seq<Seq<u8>>)
    requires
        parts.len() == 3,
    ensures
        parts.flatten() == parts[0] + parts[1] + parts[2],
{
    reveal_with_fuel(Seq::flatten, 4);
    assert(parts.flatten() =~= parts[0] + parts[1] + parts[2]);
}

/// A block is made only where the ledger could be read and knows the parent of the slot, and then
/// for that slot, requester and key.
pub proof fn law_block_needs_a_known_parent(
    start: BlockGeneration,
    meta: Result<Option<SlotMeta>, LedgerError>,
    next: Option<AwaitingParentMeta>,
)
    requires
        call_ensures(BlockGeneration::with_slot_meta, (start, meta), next),
    ensures
        meta is Err ==> next is None,
        meta matches Ok(None) ==> next is None,
        meta matches Ok(Some(known)) ==> match known.parent_slot {
            Some(parent) => next is Some && next->0.parent_slot == parent,
            None => next is None,
        },
        next is Some ==> next->0.slot == start.slot && next->0.requester == start.requester
            && next->0.keypair == start.keypair,
{
}

/// The header of a block names the parent slot, and as the parent block the very one that the ledger
/// names, byte for byte; where the ledger could not be read or does not know it, 32 zeros.
pub proof fn law_header_names_the_parent_block(
    awaiting_parent: AwaitingParentMeta,
    meta: Result<Option<ParentMeta>, LedgerError>,
    awaiting_shredder: AwaitingShredder,
    awaiting_header: AwaitingHeaderShreds,
    batch: ShredBatch,
)
    requires
        call_ensures(
            AwaitingParentMeta::with_parent_meta,
            (awaiting_parent, meta),
            awaiting_shredder,
        ),
        call_ensures(
            AwaitingShredder::with_shredder,
            (awaiting_shredder, Ok(())),
            Some(awaiting_header),
        ),
        call_ensures(AwaitingHeaderShreds::batch, (&awaiting_header,), batch),
    ensures
        batch.content is Header,
        batch.content->Header_0.parent_slot == awaiting_parent.parent_slot,
        forall|i: int|
            0 <= i < 32 ==> #[trigger] batch.content->Header_0.parent_block_id@[i] == (match meta {
                Ok(Some(known)) => known.parent_block_id@[i],
                _ => 0u8,
            }),
{
}

/// The shredder is made for the slot and its parent, at tick and version zero; where it cannot be
/// made, neither is the block.
pub proof fn law_shredder_is_made_for_the_slot(
    awaiting_parent: AwaitingParentMeta,
    meta: Result<Option<ParentMeta>, LedgerError>,
    awaiting_shredder: AwaitingShredder,
    params: ShredderParams,
    shredder: Result<(), ShredderError>,
    next: Option<AwaitingHeaderShreds>,
)
    requires
        call_ensures(
            AwaitingParentMeta::with_parent_meta,
            (awaiting_parent, meta),
            awaiting_shredder,
        ),
        call_ensures(AwaitingShredder::shredder, (&awaiting_shredder,), params),
        call_ensures(AwaitingShredder::with_shredder, (awaiting_shredder, shredder), next),
    ensures
        params.slot == awaiting_parent.slot,
        params.parent_slot == awaiting_parent.parent_slot,
        params.reference_tick == 0,
        params.version == 0,
        next is Some <==> shredder is Ok,
        next is Some ==> next->0.slot == awaiting_parent.slot && next->0.requester
            == awaiting_parent.requester && next->0.keypair == awaiting_parent.keypair,
{
}

/// The header opens the block: its shreds and coding shreds start at zero, do not end the slot, are
/// signed with the key, and are chained to the digest of the slot in little endian order, the
/// requester and the words that mark it as a seed.
pub proof fn law_header_opens_the_block(awaiting: AwaitingHeaderShreds, batch: ShredBatch)
    requires
        call_ensures(AwaitingHeaderShreds::batch, (&awaiting,), batch),
    ensures
        batch.keypair == awaiting.keypair,
        !batch.is_last_in_slot,
        batch.next_shred_index == 0,
        batch.next_code_index == 0,
        batch.chained_merkle_root is Some,
        batch.chained_merkle_root->0@ == sha256(
            seq![
                spec_u64_to_le_bytes(awaiting.slot),
                awaiting.requester@,
                encode_utf8("equivocation_seed"@),
            ],
        ),
{
}

/// The entry follows the header: it is chained to the root of the first data shred of the header,
/// the one at `first`, starts at 32, does not end the slot, is signed with the same key, and carries
/// one entry, a single hash away from the digest of the slot, the requester and the words that mark
/// it as the data of an entry.
pub proof fn law_entry_follows_the_header(
    awaiting_header: AwaitingHeaderShreds,
    header_shreds: Vec<Shred>,
    first: int,
    awaiting_entry: AwaitingEntryShreds,
    batch: ShredBatch,
)
    requires
        call_ensures(
            AwaitingHeaderShreds::with_header_shreds,
            (awaiting_header, header_shreds),
            awaiting_entry,
        ),
        call_ensures(AwaitingEntryShreds::batch, (&awaiting_entry,), batch),
        0 <= first < header_shreds@.len(),
        header_shreds@[first].is_data,
        forall|j: int| 0 <= j < first ==> !(#[trigger] header_shreds@[j]).is_data,
    ensures
        batch.chained_merkle_root == header_shreds@[first].merkle_root,
        batch.next_shred_index == 32,
        batch.next_code_index == 32,
        !batch.is_last_in_slot,
        batch.keypair == awaiting_header.keypair,
        batch.content is Entry,
        batch.content->Entry_0.num_hashes == 1,
        batch.content->Entry_0.hash@ == sha256(
            seq![
                sha256(
                    seq![
                        spec_u64_to_le_bytes(awaiting_header.slot),
                        awaiting_header.requester@,
                        encode_utf8("entry_data"@),
                    ],
                ),
            ],
        ),
{
    law_first_data_shred_has_none_before(header_shreds@, first);
}

/// The footer follows the entry: it is chained to the root of the first data shred of the entry, the
/// one at `first`, starts at 64, ends the slot, is signed with the same key, and says nothing of the
/// bank, the time or the producer.
pub proof fn law_footer_follows_the_entry(
    awaiting_entry: AwaitingEntryShreds,
    entry_shreds: Vec<Shred>,
    first: int,
    awaiting_footer: AwaitingFooterShreds,
    batch: ShredBatch,
)
    requires
        call_ensures(
            AwaitingEntryShreds::with_entry_shreds,
            (awaiting_entry, entry_shreds),
            awaiting_footer,
        ),
        call_ensures(AwaitingFooterShreds::batch, (&awaiting_footer,), batch),
        0 <= first < entry_shreds@.len(),
        entry_shreds@[first].is_data,
        forall|j: int| 0 <= j < first ==> !(#[trigger] entry_shreds@[j]).is_data,
    ensures
        batch.chained_merkle_root == entry_shreds@[first].merkle_root,
        batch.next_shred_index == 64,
        batch.next_code_index == 64,
        batch.is_last_in_slot,
        batch.keypair == awaiting_entry.keypair,
        batch.content is Footer,
        forall|i: int| 0 <= i < 32 ==> #[trigger] batch.content->Footer_0.bank_hash@[i] == 0,
        batch.content->Footer_0.block_producer_time_nanos == 0,
        batch.content->Footer_0.block_user_agent@.len() == 0,
{
    law_first_data_shred_has_none_before(entry_shreds@, first);
}

/// A part without a data shred gives the part after it no root to be chained to.
pub proof fn law_no_data_shred_nothing_to_chain_to(
    awaiting_header: AwaitingHeaderShreds,
    header_shreds: Vec<Shred>,
    awaiting_entry: AwaitingEntryShreds,
    entry_batch: ShredBatch,
    entry_shreds: Vec<Shred>,
    awaiting_footer: AwaitingFooterShreds,
    footer_batch: ShredBatch,
)
    requires
        call_ensures(
            AwaitingHeaderShreds::with_header_shreds,
            (awaiting_header, header_shreds),
            awaiting_entry,
        ),
        call_ensures(AwaitingEntryShreds::batch, (&awaiting_entry,), entry_batch),
        call_ensures(
            AwaitingEntryShreds::with_entry_shreds,
            (awaiting_entry, entry_shreds),
            awaiting_footer,
        ),
        call_ensures(AwaitingFooterShreds::batch, (&awaiting_footer,), footer_batch),
    ensures
        (forall|j: int| 0 <= j < header_shreds@.len() ==> !(#[trigger] header_shreds@[j]).is_data)
            ==> entry_batch.chained_merkle_root is None,
        (forall|j: int| 0 <= j < entry_shreds@.len() ==> !(#[trigger] entry_shreds@[j]).is_data)
            ==> footer_batch.chained_merkle_root is None,
{
    if forall|j: int| 0 <= j < header_shreds@.len() ==> !(#[trigger] header_shreds@[j]).is_data {
        law_no_data_shred_no_first_one(header_shreds@);
    }
    if forall|j: int| 0 <= j < entry_shreds@.len() ==> !(#[trigger] entry_shreds@[j]).is_data {
        law_no_data_shred_no_first_one(entry_shreds@);
    }
}

/// The block holds the payloads of the data shreds of the header, then those of the entry, then
/// those of the footer, and nothing else; where all shreds are data shreds, these are their payloads
/// one for one.
pub proof fn law_block_holds_the_three_parts(
    awaiting_header: AwaitingHeaderShreds,
    header_shreds: Vec<Shred>,
    awaiting_entry: AwaitingEntryShreds,
    entry_shreds: Vec<Shred>,
    awaiting_footer: AwaitingFooterShreds,
    footer_shreds: Vec<Shred>,
    block: CachedEquivocatingBlock,
)
    requires
        call_ensures(
            AwaitingHeaderShreds::with_header_shreds,
            (awaiting_header, header_shreds),
            awaiting_entry,
        ),
        call_ensures(
            AwaitingEntryShreds::with_entry_shreds,
            (awaiting_entry, entry_shreds),
            awaiting_footer,
        ),
        call_ensures(
            AwaitingFooterShreds::with_footer_shreds,
            (awaiting_footer, footer_shreds),
            block,
        ),
    ensures
        block.shreds@ == data_payloads(header_shreds@) + data_payloads(entry_shreds@)
            + data_payloads(footer_shreds@),
        ({
            let shreds = header_shreds@ + entry_shreds@ + footer_shreds@;
            (forall|i: int| 0 <= i < shreds.len() ==> (#[trigger] shreds[i]).is_data) ==> {
                &&& block.shreds@.len() == shreds.len()
                &&& forall|i: int|
                    0 <= i < shreds.len() ==> #[trigger] block.shreds@[i] == shreds[i].payload
            }
        }),
{
    let first = header_shreds@;
    let second = entry_shreds@;
    let third = footer_shreds@;
    let shreds = first + second + third;
    if forall|i: int| 0 <= i < shreds.len() ==> (#[trigger] shreds[i]).is_data {
        assert forall|i: int| 0 <= i < first.len() implies (#[trigger] first[i]).is_data by {
            assert(first[i] == shreds[i]);
        }
        assert forall|i: int| 0 <= i < second.len() implies (#[trigger] second[i]).is_data by {
            assert(second[i] == shreds[first.len() + i]);
        }
        assert forall|i: int| 0 <= i < third.len() implies (#[trigger] third[i]).is_data by {
            assert(third[i] == shreds[first.len() + second.len() + i]);
        }
        law_payloads_of_data_shreds(first);
        law_payloads_of_data_shreds(second);
        law_payloads_of_data_shreds(third);
    }
}

} // verus!
