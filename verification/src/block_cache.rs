//! The blocks made so far, one for each slot and requester.
use crate::block_generation::{CachedEquivocatingBlock, GenerationRun};
use crate::hashing::same_bytes;
use crate::shredding::data_payloads;
use solana_clock::Slot;
use std::collections::HashMap;
use vstd::prelude::*;

verus! {

/// The payloads of the shreds of each block, by slot and requester.
pub type BlocksByRequester = Map<(Slot, Seq<u8>), Seq<Vec<u8>>>;

/// A block and who gets it.
struct RequesterBlock {
    requester: [u8; 32],
    block: CachedEquivocatingBlock,
}

/// The blocks made so far.
pub struct EquivocatingBlocks {
    by_slot: HashMap<Slot, Vec<RequesterBlock>>,
}

/// The blocks after a request that asks for `key`, for which `generated` was made where there was
/// no block yet. A block that is there stays.
pub open spec fn with_generated(
    blocks: BlocksByRequester,
    key: (Slot, Seq<u8>),
    generated: Option<CachedEquivocatingBlock>,
) -> BlocksByRequester {
    match generated {
        Some(block) if !blocks.dom().contains(key) => blocks.insert(key, block.shreds@),
        _ => blocks,
    }
}

/// The shred at `shred_index` of the block at `key`.
pub open spec fn shred_at(
    blocks: BlocksByRequester,
    key: (Slot, Seq<u8>),
    shred_index: u64,
) -> Option<Seq<u8>> {
    let index = shred_index as usize as int;
    if blocks.dom().contains(key) && index < blocks[key].len() {
        Some(blocks[key][index]@)
    } else {
        None
    }
}

/// The bytes of a shred, where there is one.
pub open spec fn bytes_of(shred: Option<Vec<u8>>) -> Option<Seq<u8>> {
    match shred {
        Some(shred) => Some(shred@),
        None => None,
    }
}

/// Whether some block in the list is the one that `requester` gets.
spec fn has_requester(list: Seq<RequesterBlock>, requester: Seq<u8>) -> bool {
    exists|i: int| 0 <= i < list.len() && #[trigger] list[i].requester@ == requester
}

/// Where the block that `requester` gets stands in the list.
spec fn index_of(list: Seq<RequesterBlock>, requester: Seq<u8>) -> int {
    choose|i: int| 0 <= i < list.len() && #[trigger] list[i].requester@ == requester
}

/// Whether no requester occurs twice.
spec fn distinct(list: Seq<RequesterBlock>) -> bool {
    forall|i: int, j: int|
        0 <= i < j < list.len() ==> #[trigger] list[i].requester@ != #[trigger] list[j].requester@
}

impl View for EquivocatingBlocks {
    type V = BlocksByRequester;

    closed spec fn view(&self) -> BlocksByRequester {
        Map::new(
            |key: (Slot, Seq<u8>)|
                self.by_slot@.dom().contains(key.0) && has_requester(
                    self.by_slot@[key.0]@,
                    key.1,
                ),
            |key: (Slot, Seq<u8>)|
                {
                    let list = self.by_slot@[key.0]@;
                    list[index_of(list, key.1)].block.shreds@
                },
        )
    }
}

/// Where the block that `requester` gets stands in the list, if it does.
fn find(list: &Vec<RequesterBlock>, requester: &[u8; 32]) -> (found: Option<usize>)
    requires
        distinct(list@),
    ensures
        found is Some <==> has_requester(list@, requester@),
        found is Some ==> found->0 < list@.len() && found->0 == index_of(list@, requester@),
{
    let mut i: usize = 0;
    while i < list.len()
        invariant
            i <= list@.len(),
            distinct(list@),
            forall|j: int| 0 <= j < i ==> #[trigger] list@[j].requester@ != requester@,
        decreases list.len() - i,
    {
        if same_bytes(&list[i].requester, requester) {
            assert(list@[i as int].requester@ == requester@);
            assert(has_requester(list@, requester@));
            return Some(i);
        }
        i += 1;
    }
    None
}

impl EquivocatingBlocks {
    /// Whether each slot and requester has one block at most.
    pub closed spec fn well_formed(self) -> bool {
        forall|slot: Slot| #[trigger]
            self.by_slot@.dom().contains(slot) ==> distinct(self.by_slot@[slot]@)
    }

    /// No block was made yet.
    pub fn new() -> (blocks: EquivocatingBlocks)
        ensures
            blocks.well_formed(),
            blocks@ == BlocksByRequester::empty(),
    {
        broadcast use vstd::std_specs::hash::group_hash_axioms;

        let blocks = EquivocatingBlocks { by_slot: HashMap::new() };
        assert(blocks@ =~= BlocksByRequester::empty());
        blocks
    }

    /// The block that `requester` gets for `slot`, if it was made.
    fn get(&self, slot: Slot, requester: &[u8; 32]) -> (block: Option<&CachedEquivocatingBlock>)
        requires
            self.well_formed(),
        ensures
            block is Some <==> self@.dom().contains((slot, requester@)),
            block is Some ==> block->0.shreds@ == self@[(slot, requester@)],
    {
        broadcast use vstd::std_specs::hash::group_hash_axioms;

        match self.by_slot.get(&slot) {
            Some(list) => match find(list, requester) {
                Some(i) => Some(&list[i].block),
                None => None,
            },
            None => None,
        }
    }

    /// Whether the block that `requester` gets for `slot` was made.
    pub fn contains_key(&self, slot: Slot, requester: &[u8; 32]) -> (contained: bool)
        requires
            self.well_formed(),
        ensures
            contained == self@.dom().contains((slot, requester@)),
    {
        self.get(slot, requester).is_some()
    }

    /// Keeps the block that `requester` is to get for `slot`.
    fn insert(&mut self, slot: Slot, requester: &[u8; 32], block: CachedEquivocatingBlock)
        requires
            old(self).well_formed(),
            !old(self)@.dom().contains((slot, requester@)),
        ensures
            final(self).well_formed(),
            final(self)@ == old(self)@.insert((slot, requester@), block.shreds@),
    {
        broadcast use vstd::std_specs::hash::group_hash_axioms;

        let ghost shreds = block.shreds@;
        let mut list = match self.by_slot.remove(&slot) {
            Some(list) => list,
            None => Vec::new(),
        };
        let ghost before = list@;
        assert(old(self)@.dom().contains((slot, requester@)) == has_requester(before, requester@)) by {
            if !old(self).by_slot@.dom().contains(slot) {
                assert(before =~= Seq::<RequesterBlock>::empty());
            }
        }
        list.push(RequesterBlock { requester: *requester, block });
        let ghost after = list@;
        self.by_slot.insert(slot, list);
        proof {
            assert(distinct(before));
            assert forall|i: int, j: int| 0 <= i < j < after.len() implies #[trigger] after[i].requester@
                != #[trigger] after[j].requester@ by {
                assert(before[i].requester@ == after[i].requester@);
            }
            assert(self.by_slot@ =~= old(self).by_slot@.insert(slot, self.by_slot@[slot]));
            assert(after.drop_last() =~= before);
            lemma_pushed(before, after, requester@);
            assert(self@ =~= old(self)@.insert((slot, requester@), shreds));
        }
    }

    /// The shred at `shred_index` of the block that `requester` gets for `slot`. Where that block
    /// was not made yet, it is `generated`, if that could be made, from now on.
    pub fn get_equivocating_shred(
        &mut self,
        slot: Slot,
        shred_index: u64,
        requester: &[u8; 32],
        generated: Option<CachedEquivocatingBlock>,
    ) -> (shred: Option<Vec<u8>>)
        requires
            old(self).well_formed(),
        ensures
            final(self).well_formed(),
            final(self)@ == with_generated(old(self)@, (slot, requester@), generated),
            bytes_of(shred) == shred_at(final(self)@, (slot, requester@), shred_index),
            ({
                let kept = final(self)@[(slot, requester@)];
                final(self)@.dom().contains((slot, requester@)) && shred_index < kept.len() ==> {
                    &&& shred is Some
                    &&& shred->0@ == kept[shred_index as int]@
                }
            }),
    {
        if !self.contains_key(slot, requester) {
            if let Some(block) = generated {
                self.insert(slot, requester, block);
            }
        }
        let index: usize = shred_index as usize;
        match self.get(slot, requester) {
            Some(block) => if index < block.shreds.len() {
                Some(block.shreds[index].clone())
            } else {
                None
            },
            None => None,
        }
    }
}

/// A list with one more block at its end.
proof fn lemma_pushed(before: Seq<RequesterBlock>, after: Seq<RequesterBlock>, requester: Seq<u8>)
    requires
        before.len() + 1 == after.len(),
        after.drop_last() == before,
        after.last().requester@ == requester,
        !has_requester(before, requester),
        distinct(after),
    ensures
        has_requester(after, requester),
        index_of(after, requester) == before.len(),
        forall|other: Seq<u8>|
            other != requester ==> #[trigger] has_requester(after, other) == has_requester(
                before,
                other,
            ),
        forall|other: Seq<u8>|
            other != requester && has_requester(before, other) ==> #[trigger] index_of(after, other)
                == index_of(before, other),
{
    assert(after[before.len() as int].requester@ == requester);
    assert forall|other: Seq<u8>| other != requester implies #[trigger] has_requester(after, other)
        == has_requester(before, other) by {
        if has_requester(before, other) {
            let i = index_of(before, other);
            assert(after[i] == before[i]);
        }
        if has_requester(after, other) {
            let i = index_of(after, other);
            assert(after[i] == before[i]);
        }
    }
    assert forall|other: Seq<u8>| other != requester && has_requester(before, other) implies #[trigger] index_of(
        after,
        other,
    ) == index_of(before, other) by {
        let i = index_of(before, other);
        assert(after[i] == before[i]);
        assert(has_requester(after, other));
        let j = index_of(after, other);
        assert(after[i].requester@ == after[j].requester@);
    }
}

/// What a request asks for, and the block that was made for it where there was none yet.
pub struct ServedRequest {
    pub key: (Slot, Seq<u8>),
    pub generated: Option<CachedEquivocatingBlock>,
}

/// The blocks after these requests, one after the other.
pub open spec fn after_requests(
    blocks: BlocksByRequester,
    requests: Seq<ServedRequest>,
) -> BlocksByRequester
    decreases requests.len(),
{
    if requests.len() == 0 {
        blocks
    } else {
        let request = requests.last();
        with_generated(
            after_requests(blocks, requests.drop_last()),
            request.key,
            request.generated,
        )
    }
}

/// A requester that once got a block for a slot gets the shreds of that same block ever after,
/// whatever anyone asks for in between and whatever else was made in the meantime.
pub proof fn law_responses_are_consistent(
    blocks: BlocksByRequester,
    key: (Slot, Seq<u8>),
    requests: Seq<ServedRequest>,
    generated: Option<CachedEquivocatingBlock>,
    shred_index: u64,
)
    requires
        blocks.dom().contains(key),
    ensures
        ({
            let later = with_generated(after_requests(blocks, requests), key, generated);
            &&& later.dom().contains(key)
            &&& later[key] == blocks[key]
            &&& shred_at(later, key, shred_index) == shred_at(blocks, key, shred_index)
        }),
    decreases requests.len(),
{
    if requests.len() > 0 {
        law_responses_are_consistent(
            blocks,
            key,
            requests.drop_last(),
            None,
            shred_index,
        );
    }
}

/// A request by one requester for one slot bears on no other requester and no other slot.
pub proof fn law_requesters_are_independent(
    blocks: BlocksByRequester,
    key: (Slot, Seq<u8>),
    generated: Option<CachedEquivocatingBlock>,
    other: (Slot, Seq<u8>),
    shred_index: u64,
)
    requires
        other != key,
    ensures
        shred_at(with_generated(blocks, key, generated), other, shred_index) == shred_at(
            blocks,
            other,
            shred_index,
        ),
{
}

/// What is handed out is the shred that stands at the index asked for in the block that is kept for
/// the slot and the requester, for every index that the block has; beyond its end, and where no
/// block is kept, it is none.
pub proof fn law_shred_stands_at_the_index_asked_for(
    slot: Slot,
    shred_index: u64,
    requester: [u8; 32],
    generated: Option<CachedEquivocatingBlock>,
)
    ensures
        forall|blocks: &mut EquivocatingBlocks, shred: Option<Vec<u8>>| #[trigger]
            call_ensures(
                EquivocatingBlocks::get_equivocating_shred,
                (blocks, slot, shred_index, &requester, generated),
                shred,
            ) ==> {
                let kept = final(blocks)@[(slot, requester@)];
                let is_kept = final(blocks)@.dom().contains((slot, requester@));
                &&& is_kept && shred_index < kept.len() ==> {
                    &&& shred is Some
                    &&& shred->0@ == kept[shred_index as int]@
                }
                &&& is_kept && kept.len() <= shred_index <= usize::MAX ==> shred is None
                &&& !is_kept ==> shred is None
            },
{
}

/// The first block that is made for a slot and a requester is kept as it was made, shred by shred,
/// and any later one is not; where none could be made, none is kept. No other slot or requester is
/// affected.
pub proof fn law_first_block_is_kept(
    slot: Slot,
    shred_index: u64,
    requester: [u8; 32],
    generated: Option<CachedEquivocatingBlock>,
    other: (Slot, Seq<u8>),
)
    requires
        other != (slot, requester@),
    ensures
        forall|blocks: &mut EquivocatingBlocks, shred: Option<Vec<u8>>| #[trigger]
            call_ensures(
                EquivocatingBlocks::get_equivocating_shred,
                (blocks, slot, shred_index, &requester, generated),
                shred,
            ) ==> {
                let key = (slot, requester@);
                let before = (*blocks)@;
                let after = final(blocks)@;
                &&& after.dom().contains(key) <==> before.dom().contains(key) || generated is Some
                &&& before.dom().contains(key) ==> after[key] == before[key]
                &&& !before.dom().contains(key) && generated is Some ==> {
                    &&& after[key].len() == generated->0.shreds@.len()
                    &&& forall|i: int|
                        0 <= i < after[key].len() ==> #[trigger] after[key][i]
                            == generated->0.shreds@[i]
                }
                &&& after.dom().contains(other) <==> before.dom().contains(other)
                &&& before.dom().contains(other) ==> after[other] == before[other]
            },
{
}

/// In a block of three parts with 32 data shreds each, the indices from 0 on reach the shreds of
/// the header, those from 32 on the shreds of the entry, and those from 64 on the shreds of the
/// footer, each in the order in which they were made.
pub proof fn law_index_reaches_the_part(
    run: GenerationRun,
    slot: Slot,
    requester: [u8; 32],
    generated: Option<CachedEquivocatingBlock>,
    i: u64,
)
    requires
        run.valid(),
        data_payloads(run.header_shreds).len() == 32,
        data_payloads(run.entry_shreds).len() == 32,
        data_payloads(run.footer_shreds).len() == 32,
        i < 32,
    ensures
        forall|blocks: &mut EquivocatingBlocks, shred_index: u64, shred: Option<Vec<u8>>| #[trigger]
            call_ensures(
                EquivocatingBlocks::get_equivocating_shred,
                (blocks, slot, shred_index, &requester, generated),
                shred,
            ) && final(blocks)@.dom().contains((slot, requester@)) && final(blocks)@[(
                slot,
                requester@,
            )] == run.block.shreds@ ==> {
                &&& shred_index == i ==> {
                    &&& shred is Some
                    &&& shred->0@ == data_payloads(run.header_shreds)[i as int]@
                }
                &&& shred_index == 32 + i ==> {
                    &&& shred is Some
                    &&& shred->0@ == data_payloads(run.entry_shreds)[i as int]@
                }
                &&& shred_index == 64 + i ==> {
                    &&& shred is Some
                    &&& shred->0@ == data_payloads(run.footer_shreds)[i as int]@
                }
            },
{
    assert(run.block.shreds@.len() == 96);
}

/// At first no block is kept, and whether one is can be asked.
pub proof fn law_no_block_is_kept_at_first(slot: Slot, requester: [u8; 32])
    ensures
        forall|blocks: EquivocatingBlocks| #[trigger]
            call_ensures(EquivocatingBlocks::new, (), blocks) ==> blocks.well_formed()
                && !blocks@.dom().contains((slot, requester@)),
        forall|blocks: EquivocatingBlocks, contained: bool| #[trigger]
            call_ensures(EquivocatingBlocks::contains_key, (&blocks, slot, &requester), contained)
                ==> (contained <==> blocks@.dom().contains((slot, requester@))),
{
}

/// Asking again for a shred gives the same bytes again as long as the same block is kept for the slot
/// and the requester, whatever block was made for the second request.
pub proof fn law_asking_again_gives_the_same_shred(
    slot: Slot,
    shred_index: u64,
    requester: [u8; 32],
    generated: Option<CachedEquivocatingBlock>,
    generated_later: Option<CachedEquivocatingBlock>,
)
    ensures
        forall|
            blocks: &mut EquivocatingBlocks,
            later: &mut EquivocatingBlocks,
            first: Option<Vec<u8>>,
            second: Option<Vec<u8>>,
        |
            #[trigger] call_ensures(
                EquivocatingBlocks::get_equivocating_shred,
                (blocks, slot, shred_index, &requester, generated),
                first,
            ) && #[trigger] call_ensures(
                EquivocatingBlocks::get_equivocating_shred,
                (later, slot, shred_index, &requester, generated_later),
                second,
            ) && first is Some && (*later)@.dom().contains((slot, requester@)) && (*later)@[(
                slot,
                requester@,
            )] == final(blocks)@[(slot, requester@)] ==> {
                &&& second is Some
                &&& second->0@ == first->0@
            },
{
}

} // verus!
