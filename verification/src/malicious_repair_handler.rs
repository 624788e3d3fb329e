//! A repair handler that answers some requests with shreds of another block than the one that was
//! produced, to try out how a cluster copes with a leader that equivocates.
use crate::block_generation::BlockGeneration;
use crate::hashing::{hash_bytes, pubkey_of, public_key, same_bytes, sha256};
use solana_clock::Slot;
use vstd::prelude::*;

verus! {

/// Which requests are answered with other shreds, and how.
#[derive(Clone, Copy, Debug)]
pub struct MaliciousRepairConfig {
    /// If set, respond maliciously for slots where `slot % frequency == 0`
    pub bad_shred_slot_frequency: Option<Slot>,
    /// If set, respond maliciously for shred indices where `index % frequency == 0`
    pub bad_shred_index_frequency: Option<u64>,
    /// If set, generate a consistent but different block per requester.
    /// Each requester gets a unique version of the block that is consistently
    /// returned for all their requests for that slot.
    pub per_requester_equivocation: bool,
}

impl Default for MaliciousRepairConfig {
    fn default() -> (config: MaliciousRepairConfig)
        ensures
            config.bad_shred_slot_frequency is None,
            config.bad_shred_index_frequency is None,
            !config.per_requester_equivocation,
    {
        MaliciousRepairConfig {
            bad_shred_slot_frequency: None,
            bad_shred_index_frequency: None,
            per_requester_equivocation: false,
        }
    }
}

impl MaliciousRepairConfig {
    /// Whether no frequency is zero, so that one can divide by them.
    pub open spec fn frequencies_nonzero(self) -> bool {
        &&& self.bad_shred_slot_frequency != Some(0u64)
        &&& self.bad_shred_index_frequency != Some(0u64)
    }

    /// Whether this shred of this slot is one to respond maliciously for: some frequency is set,
    /// and every one that is set divides its number.
    pub open spec fn selects(self, slot: Slot, shred_index: u64) -> bool {
        &&& self.bad_shred_slot_frequency is Some || self.bad_shred_index_frequency is Some
        &&& self.bad_shred_slot_frequency matches Some(frequency) ==> slot % frequency == 0
        &&& self.bad_shred_index_frequency matches Some(frequency) ==> shred_index % frequency == 0
    }
}

/// The address of a requester.
#[derive(Clone, Copy, Debug)]
pub enum IpOctets {
    V4([u8; 4]),
    V6([u8; 16]),
}

impl IpOctets {
    /// The bytes of the address.
    pub open spec fn octets(self) -> Seq<u8> {
        match self {
            IpOctets::V4(octets) => octets@,
            IpOctets::V6(octets) => octets@,
        }
    }
}

/// Decides how to answer repair requests.
pub struct MaliciousRepairHandler {
    config: MaliciousRepairConfig,
    keypair: [u8; 32],
}

impl MaliciousRepairHandler {
    /// How this handler is set up.
    pub closed spec fn configuration(self) -> MaliciousRepairConfig {
        self.config
    }

    /// The secret key of this node.
    pub closed spec fn secret_key(self) -> [u8; 32] {
        self.keypair
    }

    /// Whether this node is the leader that the schedule names.
    pub open spec fn is_leader(self, slot_leader: Option<[u8; 32]>) -> bool {
        slot_leader matches Some(leader) && leader@ == public_key(self.secret_key()@)
    }

    /// A handler for the node with this secret key.
    pub fn new(keypair: [u8; 32], config: MaliciousRepairConfig) -> (handler:
        MaliciousRepairHandler)
        ensures
            handler.configuration() == config,
            handler.secret_key() == keypair,
    {
        MaliciousRepairHandler { config, keypair }
    }

    /// How this handler is set up.
    pub fn config(&self) -> (config: &MaliciousRepairConfig)
        ensures
            *config == self.configuration(),
    {
        &self.config
    }

    /// The secret key of this node, which signs every shred that the handler has made.
    pub fn signing_key(&self) -> (key: &[u8; 32])
        ensures
            *key == self.secret_key(),
    {
        &self.keypair
    }

    /// Check if we should respond maliciously for this slot and shred index
    pub fn should_respond_maliciously(&self, slot: Slot, shred_index: u64) -> (malicious: bool)
        requires
            self.configuration().frequencies_nonzero(),
        ensures
            malicious == self.configuration().selects(slot, shred_index),
    {
        let slot_matches = match self.config.bad_shred_slot_frequency {
            Some(frequency) => slot % frequency == 0,
            None => false,
        };
        let index_matches = match self.config.bad_shred_index_frequency {
            Some(frequency) => shred_index % frequency == 0,
            None => false,
        };
        match (self.config.bad_shred_slot_frequency, self.config.bad_shred_index_frequency) {
            (Some(_), Some(_)) => slot_matches && index_matches,
            (Some(_), None) => slot_matches,
            (None, Some(_)) => index_matches,
            (None, None) => false,
        }
    }

    /// Check if we were the leader for a slot, given whom the schedule names for it
    pub fn is_leader_for_slot(&self, slot_leader: Option<[u8; 32]>) -> (leader: bool)
        ensures
            leader == self.is_leader(slot_leader),
    {
        match slot_leader {
            Some(leader) => same_bytes(&leader, &pubkey_of(&self.keypair)),
            None => false,
        }
    }

    /// Derive a "requester identity" from the address: the digest of its bytes, so that the same
    /// address always has the same identity.
    pub fn requester_identity(&self, ip: &IpOctets) -> (identity: [u8; 32])
        ensures
            identity@ == sha256(seq![ip.octets()]),
    {
        match ip {
            IpOctets::V4(octets) => hash_bytes(octets.as_slice()),
            IpOctets::V6(octets) => hash_bytes(octets.as_slice()),
        }
    }

    /// Starts to generate the block for a specific requester, signed with the key of this node.
    pub fn generate_equivocating_block(&self, slot: Slot, requester: [u8; 32]) -> (start:
        BlockGeneration)
        ensures
            start.slot == slot,
            start.requester == requester,
            start.keypair == self.secret_key(),
    {
        BlockGeneration { slot, requester, keypair: self.keypair }
    }
}

/// Where a frequency is set for slots, the slots to respond maliciously for are its multiples;
/// where one is set for shred indices, the shreds are those at its multiples; where both are set,
/// both must hold, and where none is, there is no such shred. Here `slot_rest` and `index_rest` are
/// what is left over of the slot and of the index beyond a multiple of their frequency.
pub proof fn law_only_multiples_are_selected(
    handler: MaliciousRepairHandler,
    slot: Slot,
    slot_times: int,
    slot_rest: int,
    shred_index: u64,
    index_times: int,
    index_rest: int,
    malicious: bool,
)
    requires
        call_ensures(
            MaliciousRepairHandler::should_respond_maliciously,
            (&handler, slot, shred_index),
            malicious,
        ),
        handler.configuration().bad_shred_slot_frequency matches Some(frequency) ==> slot
            == frequency * slot_times + slot_rest && 0 <= slot_rest < frequency,
        handler.configuration().bad_shred_index_frequency matches Some(frequency) ==> shred_index
            == frequency * index_times + index_rest && 0 <= index_rest < frequency,
    ensures
        ({
            let by_slot = handler.configuration().bad_shred_slot_frequency is Some;
            let by_index = handler.configuration().bad_shred_index_frequency is Some;
            &&& by_slot && !by_index ==> (malicious <==> slot_rest == 0)
            &&& by_index && !by_slot ==> (malicious <==> index_rest == 0)
            &&& by_slot && by_index ==> (malicious <==> slot_rest == 0 && index_rest == 0)
            &&& !by_slot && !by_index ==> !malicious
        }),
{
    if let Some(frequency) = handler.configuration().bad_shred_slot_frequency {
        lemma_rest(slot as int, frequency as int, slot_times, slot_rest);
    }
    if let Some(frequency) = handler.configuration().bad_shred_index_frequency {
        lemma_rest(shred_index as int, frequency as int, index_times, index_rest);
    }
}

/// What is left over of a number beyond a multiple is its remainder.
proof fn lemma_rest(number: int, frequency: int, times: int, rest: int)
    requires
        number == frequency * times + rest,
        0 <= rest < frequency,
    ensures
        number % frequency == rest,
{
    assert(frequency * times == times * frequency) by (nonlinear_arith);
    vstd::arithmetic::div_mod::lemma_fundamental_div_mod_converse(number, frequency, times, rest);
}

/// Any slot and shred index can be asked about where no frequency that is set is zero.
pub proof fn law_every_shred_can_be_decided(
    handler: MaliciousRepairHandler,
    slot: Slot,
    shred_index: u64,
)
    requires
        handler.configuration().bad_shred_slot_frequency matches Some(frequency) ==> frequency > 0,
        handler.configuration().bad_shred_index_frequency matches Some(frequency) ==> frequency > 0,
    ensures
        call_requires(
            MaliciousRepairHandler::should_respond_maliciously,
            (&handler, slot, shred_index),
        ),
{
}

/// This node is the leader where the schedule names its public key, and nowhere else.
pub proof fn law_leader_has_the_public_key(
    handler: MaliciousRepairHandler,
    slot_leader: Option<[u8; 32]>,
    leader: bool,
)
    requires
        call_ensures(MaliciousRepairHandler::is_leader_for_slot, (&handler, slot_leader), leader),
    ensures
        slot_leader is None ==> !leader,
        slot_leader matches Some(named) ==> (leader <==> named@ == public_key(
            handler.secret_key()@,
        )),
{
}

/// A requester is known by the digest of the bytes of its address, in their order, and by nothing
/// else: every handler gives the same address the same identity.
pub proof fn law_identity_is_the_digest_of_the_address(
    handler: MaliciousRepairHandler,
    ip: IpOctets,
    identity: [u8; 32],
    other_handler: MaliciousRepairHandler,
    again: [u8; 32],
)
    requires
        call_ensures(MaliciousRepairHandler::requester_identity, (&handler, &ip), identity),
        call_ensures(MaliciousRepairHandler::requester_identity, (&other_handler, &ip), again),
    ensures
        ip matches IpOctets::V4(octets) ==> identity@ == sha256(seq![octets@]),
        ip matches IpOctets::V6(octets) ==> identity@ == sha256(seq![octets@]),
        identity@ == again@,
{
}

/// A handler keeps what it was set up with, and has every block signed with its own key.
pub proof fn law_handler_keeps_its_setup(
    keypair: [u8; 32],
    config: MaliciousRepairConfig,
    handler: MaliciousRepairHandler,
    kept_config: &MaliciousRepairConfig,
    kept_key: &[u8; 32],
    slot: Slot,
    requester: [u8; 32],
    start: BlockGeneration,
)
    requires
        call_ensures(MaliciousRepairHandler::new, (keypair, config), handler),
        call_ensures(MaliciousRepairHandler::config, (&handler,), kept_config),
        call_ensures(MaliciousRepairHandler::signing_key, (&handler,), kept_key),
        call_ensures(
            MaliciousRepairHandler::generate_equivocating_block,
            (&handler, slot, requester),
            start,
        ),
    ensures
        kept_config.bad_shred_slot_frequency == config.bad_shred_slot_frequency,
        kept_config.bad_shred_index_frequency == config.bad_shred_index_frequency,
        kept_config.per_requester_equivocation == config.per_requester_equivocation,
        handler.configuration() == config,
        *kept_key == keypair,
        handler.secret_key() == keypair,
        start.slot == slot,
        start.requester == requester,
        start.keypair == keypair,
{
}

/// Unless it is set up otherwise, a handler responds maliciously for no shred, and does not make
/// blocks per requester.
pub proof fn law_default_setup_is_honest(
    keypair: [u8; 32],
    config: MaliciousRepairConfig,
    handler: MaliciousRepairHandler,
    slot: Slot,
    shred_index: u64,
    malicious: bool,
)
    requires
        call_ensures(MaliciousRepairConfig::default, (), config),
        call_ensures(MaliciousRepairHandler::new, (keypair, config), handler),
        call_ensures(
            MaliciousRepairHandler::should_respond_maliciously,
            (&handler, slot, shred_index),
            malicious,
        ),
    ensures
        !malicious,
        !handler.configuration().per_requester_equivocation,
{
}

} // verus!
