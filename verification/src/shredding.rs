//! What goes into a shredder and what comes out of it.
use crate::hashing::EmptyEntry;
use solana_clock::Slot;
use vstd::prelude::*;

verus! {

/// What a shredder is made for.
#[derive(Debug, Clone, Copy, PartialEq, Eq, Structural)]
pub struct ShredderParams {
    pub slot: Slot,
    pub parent_slot: Slot,
    pub reference_tick: u8,
    pub version: u16,
}

/// The marker that opens a block.
pub struct BlockHeader {
    pub parent_slot: Slot,
    pub parent_block_id: [u8; 32],
}

/// The marker that closes a block. It bears no certificates.
pub struct BlockFooter {
    pub bank_hash: [u8; 32],
    pub block_producer_time_nanos: u64,
    pub block_user_agent: Vec<u8>,
}

/// What a batch of shreds carries.
pub enum BatchContent {
    Header(BlockHeader),
    /// A single entry.
    Entry(EmptyEntry),
    Footer(BlockFooter),
}

/// An order to the shredder: what to make shreds of, and how.
pub struct ShredBatch {
    /// The secret key to sign the shreds with.
    pub keypair: [u8; 32],
    pub content: BatchContent,
    pub is_last_in_slot: bool,
    /// The Merkle root that the first erasure batch is chained to.
    pub chained_merkle_root: Option<[u8; 32]>,
    pub next_shred_index: u32,
    pub next_code_index: u32,
}

/// A shred that the shredder made.
pub struct Shred {
    /// Whether it is a data shred, and not a coding shred.
    pub is_data: bool,
    /// The root of its Merkle tree, if it has one.
    pub merkle_root: Option<[u8; 32]>,
    pub payload: Vec<u8>,
}

/// The first data shred.
pub open spec fn first_data_shred(shreds: Seq<Shred>) -> Option<Shred>
    decreases shreds.len(),
{
    if shreds.len() == 0 {
        None
    } else if shreds[0].is_data {
        Some(shreds[0])
    } else {
        first_data_shred(shreds.drop_first())
    }
}

/// The Merkle root of the first data shred.
pub open spec fn first_data_root(shreds: Seq<Shred>) -> Option<[u8; 32]> {
    match first_data_shred(shreds) {
        Some(shred) => shred.merkle_root,
        None => None,
    }
}

/// The payloads of the data shreds, in order.
pub open spec fn data_payloads(shreds: Seq<Shred>) -> Seq<Vec<u8>> {
    shreds.filter(|shred: Shred| shred.is_data).map_values(|shred: Shred| shred.payload)
}

/// Where the first data shred stands; the length where there is none.
fn first_data_index(shreds: &Vec<Shred>) -> (index: usize)
    ensures
        index <= shreds@.len(),
        index < shreds@.len() ==> first_data_shred(shreds@) == Some(shreds@[index as int]),
        index == shreds@.len() ==> first_data_shred(shreds@) is None,
{
    let mut i: usize = 0;
    assert(shreds@.skip(0) =~= shreds@);
    while i < shreds.len()
        invariant
            i <= shreds@.len(),
            first_data_shred(shreds@) == first_data_shred(shreds@.skip(i as int)),
        decreases shreds.len() - i,
    {
        assert(shreds@.skip(i as int)[0] == shreds@[i as int]);
        if shreds[i].is_data {
            return i;
        }
        assert(shreds@.skip(i as int).drop_first() =~= shreds@.skip(i + 1));
        i += 1;
    }
    i
}

/// See [`first_data_root`].
pub fn merkle_root_of_data(shreds: &Vec<Shred>) -> (root: Option<[u8; 32]>)
    ensures
        root == first_data_root(shreds@),
{
    let index: usize = first_data_index(shreds);
    if index < shreds.len() {
        shreds[index].merkle_root
    } else {
        None
    }
}

/// The payload of the first data shred.
pub fn first_data_payload(shreds: Vec<Shred>) -> (payload: Option<Vec<u8>>)
    ensures
        payload == (match first_data_shred(shreds@) {
            Some(shred) => Some(shred.payload),
            None => None,
        }),
{
    let index: usize = first_data_index(&shreds);
    let mut shreds = shreds;
    if index < shreds.len() {
        Some(shreds.swap_remove(index).payload)
    } else {
        None
    }
}

/// Adds the payloads of the data shreds to the end of `payloads`.
pub fn append_data_payloads(payloads: &mut Vec<Vec<u8>>, shreds: Vec<Shred>)
    ensures
        final(payloads)@ == old(payloads)@ + data_payloads(shreds@),
{
    let ghost all = shreds@;
    assert(all.take(0) =~= Seq::<Shred>::empty());
    assert(data_payloads(all.take(0)) =~= Seq::<Vec<u8>>::empty());
    for shred in iter: shreds.into_iter()
        invariant
            iter.seq() == all,
            payloads@ == old(payloads)@ + data_payloads(all.take(iter.index() as int)),
    {
        proof {
            let i = iter.index() as int;
            assert(shred == all[i]);
            assert(all.take(i + 1) =~= all.take(i).push(shred));
            law_data_payloads_are_taken_in_order(all.take(i), shred);
        }
        if shred.is_data {
            payloads.push(shred.payload);
        }
    }
    assert(all.take(all.len() as int) =~= all);
}

/// Of no shreds there are no payloads. One more shred adds its payload at the end where it is a data
/// shred, and nothing where it is not.
pub proof fn law_data_payloads_are_taken_in_order(shreds: Seq<Shred>, shred: Shred)
    ensures
        data_payloads(Seq::<Shred>::empty()) == Seq::<Vec<u8>>::empty(),
        shred.is_data ==> data_payloads(shreds.push(shred)) == data_payloads(shreds).push(
            shred.payload,
        ),
        !shred.is_data ==> data_payloads(shreds.push(shred)) == data_payloads(shreds),
{
    reveal(Seq::filter);
    let keep = |shred: Shred| shred.is_data;
    assert(data_payloads(Seq::<Shred>::empty()) =~= Seq::<Vec<u8>>::empty());
    assert(shreds.push(shred).drop_last() =~= shreds);
    assert(shreds.push(shred).filter(keep) =~= if shred.is_data {
        shreds.filter(keep).push(shred)
    } else {
        shreds.filter(keep)
    });
    if shred.is_data {
        assert(data_payloads(shreds.push(shred)) =~= data_payloads(shreds).push(shred.payload));
    }
}

/// Where all shreds are data shreds, their payloads are those of the shreds, one for one.
pub proof fn law_payloads_of_data_shreds(shreds: Seq<Shred>)
    requires
        forall|i: int| 0 <= i < shreds.len() ==> (#[trigger] shreds[i]).is_data,
    ensures
        data_payloads(shreds).len() == shreds.len(),
        forall|i: int|
            0 <= i < shreds.len() ==> #[trigger] data_payloads(shreds)[i] == shreds[i].payload,
    decreases shreds.len(),
{
    if shreds.len() > 0 {
        law_payloads_of_data_shreds(shreds.drop_last());
        law_data_payloads_are_taken_in_order(shreds.drop_last(), shreds.last());
        assert(shreds.drop_last().push(shreds.last()) =~= shreds);
    } else {
        law_data_payloads_are_taken_in_order(shreds, arbitrary());
        assert(shreds =~= Seq::<Shred>::empty());
    }
}

/// What is appended comes after what was there, which stays: the payload of a single data shred, or
/// nothing of a coding shred, and of two lists of shreds what the one and then the other appends.
pub proof fn law_payloads_are_appended(first: Vec<Shred>, second: Vec<Shred>, both: Vec<Shred>)
    requires
        both@ == first@ + second@,
    ensures
        forall|payloads: &mut Vec<Vec<u8>>| #[trigger]
            call_ensures(append_data_payloads, (payloads, first), ()) && first@.len() == 1 ==> {
                &&& first@[0].is_data ==> final(payloads)@ == (*payloads)@.push(first@[0].payload)
                &&& !first@[0].is_data ==> final(payloads)@ == (*payloads)@
            },
        forall|
            payloads: &mut Vec<Vec<u8>>,
            after_first: &mut Vec<Vec<u8>>,
            at_once: &mut Vec<Vec<u8>>,
        |
            #[trigger] call_ensures(append_data_payloads, (payloads, first), ())
                && #[trigger] call_ensures(append_data_payloads, (after_first, second), ())
                && #[trigger] call_ensures(append_data_payloads, (at_once, both), ())
                && (*after_first)@ == final(payloads)@ && (*at_once)@ == (*payloads)@
                ==> final(at_once)@ == final(after_first)@,
{
    lemma_payloads_of_two_lists(first@, second@);
    if first@.len() == 1 {
        law_data_payloads_are_taken_in_order(Seq::empty(), first@[0]);
        assert(Seq::<Shred>::empty().push(first@[0]) =~= first@);
    }
    assert forall|
        payloads: &mut Vec<Vec<u8>>,
        after_first: &mut Vec<Vec<u8>>,
        at_once: &mut Vec<Vec<u8>>,
    |
        #[trigger] call_ensures(append_data_payloads, (payloads, first), ()) && #[trigger] call_ensures(
            append_data_payloads,
            (after_first, second),
            (),
        ) && #[trigger] call_ensures(append_data_payloads, (at_once, both), ()) && (*after_first)@
            == final(payloads)@ && (*at_once)@ == (*payloads)@ implies final(at_once)@
        == final(after_first)@ by {
        assert(final(at_once)@ =~= final(after_first)@);
    }
}

proof fn lemma_payloads_of_two_lists(first: Seq<Shred>, second: Seq<Shred>)
    ensures
        data_payloads(first + second) == data_payloads(first) + data_payloads(second),
    decreases second.len(),
{
    law_data_payloads_are_taken_in_order(first, arbitrary());
    if second.len() == 0 {
        assert(second =~= Seq::<Shred>::empty());
        assert(first + second =~= first);
        assert(data_payloads(first) + data_payloads(second) =~= data_payloads(first));
    } else {
        lemma_payloads_of_two_lists(first, second.drop_last());
        law_data_payloads_are_taken_in_order(first + second.drop_last(), second.last());
        law_data_payloads_are_taken_in_order(second.drop_last(), second.last());
        assert((first + second.drop_last()).push(second.last()) =~= first + second);
        assert(second.drop_last().push(second.last()) =~= second);
        assert(data_payloads(first + second) =~= data_payloads(first) + data_payloads(second));
    }
}

/// The first data shred is the one that is a data shred and has none before it.
pub proof fn law_first_data_shred_has_none_before(shreds: Seq<Shred>, i: int)
    requires
        0 <= i < shreds.len(),
        shreds[i].is_data,
        forall|j: int| 0 <= j < i ==> !(#[trigger] shreds[j]).is_data,
    ensures
        first_data_shred(shreds) == Some(shreds[i]),
    decreases i,
{
    if i > 0 {
        let rest = shreds.drop_first();
        assert(!shreds[0].is_data);
        assert forall|j: int| 0 <= j < i - 1 implies !(#[trigger] rest[j]).is_data by {
            assert(rest[j] == shreds[j + 1]);
        }
        law_first_data_shred_has_none_before(rest, i - 1);
    }
}

/// Where no shred is a data shred, there is no first one.
pub proof fn law_no_data_shred_no_first_one(shreds: Seq<Shred>)
    requires
        forall|j: int| 0 <= j < shreds.len() ==> !(#[trigger] shreds[j]).is_data,
    ensures
        first_data_shred(shreds) is None,
    decreases shreds.len(),
{
    if shreds.len() > 0 {
        let rest = shreds.drop_first();
        assert forall|j: int| 0 <= j < rest.len() implies !(#[trigger] rest[j]).is_data by {
            assert(rest[j] == shreds[j + 1]);
        }
        law_no_data_shred_no_first_one(rest);
    }
}

/// The root and the payload that are taken from a list of shreds are those of its first data shred,
/// the one at `i`; coding shreds before it do not count.
pub proof fn law_root_and_payload_are_of_the_first_data_shred(
    shreds: Vec<Shred>,
    i: int,
    root: Option<[u8; 32]>,
    payload: Option<Vec<u8>>,
)
    requires
        call_ensures(merkle_root_of_data, (&shreds,), root),
        call_ensures(first_data_payload, (shreds,), payload),
        0 <= i < shreds@.len(),
        shreds@[i].is_data,
        forall|j: int| 0 <= j < i ==> !(#[trigger] shreds@[j]).is_data,
    ensures
        root == shreds@[i].merkle_root,
        payload == Some(shreds@[i].payload),
{
    law_first_data_shred_has_none_before(shreds@, i);
}

/// A list without a data shred has neither a root nor a payload to take.
pub proof fn law_coding_shreds_have_no_root_and_payload(
    shreds: Vec<Shred>,
    root: Option<[u8; 32]>,
    payload: Option<Vec<u8>>,
)
    requires
        call_ensures(merkle_root_of_data, (&shreds,), root),
        call_ensures(first_data_payload, (shreds,), payload),
        forall|j: int| 0 <= j < shreds@.len() ==> !(#[trigger] shreds@[j]).is_data,
    ensures
        root is None,
        payload is None,
{
    law_no_data_shred_no_first_one(shreds@);
}

} // verus!
