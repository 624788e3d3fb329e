//! SHA-256 digests, the hashes of ledger entries, and public keys.
use solana_entry::entry::Entry;
use solana_keypair::Keypair;
use solana_signer::Signer;
use vstd::prelude::*;

verus! {

/// The SHA-256 digest of `parts`, hashed one after the other.
pub uninterp spec fn sha256(parts: Seq<Seq<u8>>) -> Seq<u8>;

/// The bytes of the Ed25519 public key that belongs to a secret key.
pub uninterp spec fn public_key(secret: Seq<u8>) -> Seq<u8>;

/// The digest reached from `start` by hashing `times` times over.
pub open spec fn sha256_chain(start: Seq<u8>, times: nat) -> Seq<u8>
    decreases times,
{
    if times == 0 {
        start
    } else {
        sha256(seq![sha256_chain(start, (times - 1) as nat)])
    }
}

/// Calls `solana_sha256_hasher::hashv`. Trusted: the digest is a function of the list of parts.
#[verifier::external_body]
pub(crate) fn hash_parts(parts: &[&[u8]]) -> (digest: [u8; 32])
    ensures
        digest@ == sha256(parts@.map_values(|part: &[u8]| part@)),
{
    solana_sha256_hasher::hashv(parts).to_bytes()
}

/// Calls `solana_sha256_hasher::hash`. Trusted: hashing one slice is hashing the list that holds
/// that slice alone.
#[verifier::external_body]
pub(crate) fn hash_bytes(data: &[u8]) -> (digest: [u8; 32])
    ensures
        digest@ == sha256(seq![data@]),
{
    solana_sha256_hasher::hash(data).to_bytes()
}

/// Whether a hash has the form of a counter's value: eight bytes, and zeros after them.
pub open spec fn counter_hash(hash: Seq<u8>) -> bool {
    hash.len() == 32 && forall|i: int| 8 <= i < 32 ==> hash[i] == 0
}

/// Calls `solana_hash::Hash::new_unique`, which takes the next value of a counter that the whole
/// process shares. Trusted: the counter fills the first eight bytes and the rest are zero. Which
/// value the counter has is not stated: it depends on every earlier call in the process.
#[verifier::external_body]
fn unique_hash() -> (hash: [u8; 32])
    ensures
        counter_hash(hash@),
{
    solana_hash::Hash::new_unique().to_bytes()
}

/// Whether `hash` was drawn from the counter that the process shares.
pub closed spec fn is_drawn(hash: [u8; 32]) -> bool {
    call_ensures(unique_hash, (), hash)
}

/// What `source` gives.
fn draw<F: Fn() -> [u8; 32]>(source: F) -> (hash: [u8; 32])
    requires
        call_requires(source, ()),
    ensures
        call_ensures(source, (), hash),
{
    source()
}

/// The next hash of the counter that the process shares.
pub(crate) fn draw_hash() -> (hash: [u8; 32])
    ensures
        is_drawn(hash),
        counter_hash(hash@),
{
    draw(unique_hash)
}

/// A ledger entry without transactions.
pub struct EmptyEntry {
    /// The number of hashes since the previous entry.
    pub num_hashes: u64,
    /// The hash of this entry.
    pub hash: [u8; 32],
}

/// Calls `solana_entry::entry::Entry::new` with no transactions. Trusted: the entry keeps
/// `num_hashes`, and its hash is `prev_hash` hashed that many times over.
#[verifier::external_body]
pub(crate) fn new_entry(prev_hash: &[u8; 32], num_hashes: u64) -> (entry: EmptyEntry)
    ensures
        entry.num_hashes == num_hashes,
        entry.hash@ == sha256_chain(prev_hash@, num_hashes as nat),
{
    let entry = Entry::new(&solana_hash::Hash::new_from_array(*prev_hash), num_hashes, vec![]);
    EmptyEntry { num_hashes: entry.num_hashes, hash: entry.hash.to_bytes() }
}

/// Calls `pubkey` of `solana_signer::Signer` on the `solana_keypair::Keypair` made from `secret`.
/// Trusted: the public key is a function of the secret key.
#[verifier::external_body]
pub(crate) fn pubkey_of(secret: &[u8; 32]) -> (pubkey: [u8; 32])
    ensures
        pubkey@ == public_key(secret@),
{
    Keypair::new_from_array(*secret).pubkey().to_bytes()
}

/// Whether two hashes or keys are equal.
pub fn same_bytes(a: &[u8; 32], b: &[u8; 32]) -> (same: bool)
    ensures
        same == (a@ == b@),
        same == (*a == *b),
{
    let mut i: usize = 0;
    while i < 32
        invariant
            i <= 32,
            forall|j: int| 0 <= j < i ==> a@[j] == b@[j],
        decreases 32 - i,
    {
        if a[i] != b[i] {
            assert(a@[i as int] != b@[i as int]);
            return false;
        }
        i += 1;
    }
    assert(a@ =~= b@);
    assert(*a =~= *b);
    true
}

/// What is drawn is what the counter gives: eight bytes, and zeros after them.
proof fn law_drawn_hash_comes_from_the_counter(hash: [u8; 32])
    ensures
        call_ensures(draw_hash, (), hash) ==> forall|i: int|
            8 <= i < 32 ==> #[trigger] hash@[i] == 0,
        call_ensures(draw_hash, (), hash) ==> call_ensures(unique_hash, (), hash),
        is_drawn(hash) ==> call_ensures(unique_hash, (), hash),
{
}

/// Two hashes or keys are the same where they are the same byte for byte.
pub proof fn law_same_bytes_are_equal_everywhere(a: [u8; 32], b: [u8; 32], same: bool)
    requires
        call_ensures(same_bytes, (&a, &b), same),
    ensures
        same <==> forall|i: int| 0 <= i < 32 ==> #[trigger] a@[i] == b@[i],
{
    if forall|i: int| 0 <= i < 32 ==> #[trigger] a@[i] == b@[i] {
        assert(a@ =~= b@);
    }
}

} // verus!
