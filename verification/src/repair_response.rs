//! The answer to a repair request, one question to the ledger at a time. Every step that waits for
//! an answer is a type of its own, which takes the answer to the step that follows.
use crate::block_cache::{
    after_requests, bytes_of, law_responses_are_consistent, shred_at, with_generated,
    BlocksByRequester, ServedRequest,
};
use crate::block_generation::{CachedEquivocatingBlock, ShredderError};
use crate::hashing::{public_key, sha256};
use crate::malicious_repair_handler::{IpOctets, MaliciousRepairHandler};
use crate::shred_generation::{generation_for, OriginalShred, ShredError, ShredGeneration};
use crate::shredding::{
    first_data_payload, first_data_shred, law_first_data_shred_has_none_before,
    law_no_data_shred_no_first_one, Shred, ShredBatch, ShredderParams,
};
use solana_clock::Slot;
use vstd::prelude::*;

verus! {

/// Where the shred of an answer is from.
#[derive(Debug, Clone, Copy, PartialEq, Eq, Structural)]
pub enum ResponseKind {
    /// The block made for the requester.
    PerRequester,
    /// A shred made in place of the stored one.
    PerShred,
    /// The ledger.
    Original,
}

/// A request for a shred.
pub struct RepairRequest<'a> {
    pub handler: &'a MaliciousRepairHandler,
    pub slot: Slot,
    pub shred_index: u64,
    /// The block to take the shred from, where the requester names one.
    pub block_id: Option<[u8; 32]>,
    /// The address of the requester.
    pub ip: IpOctets,
}

/// What to do next for a request. `L` is where the ledger keeps a block.
pub enum RepairStep<'a, L> {
    /// Look up whom the schedule names as the leader of the slot.
    LookUpLeader(AwaitingLeader<'a>),
    /// Get the shred from the block made for the requester.
    GetEquivocatingShred(AwaitingEquivocatingShred<'a>),
    /// Look up where the ledger keeps the block.
    LocateBlock(AwaitingLocation<'a>),
    /// Read the stored shred.
    ReadShred(AwaitingOriginal<'a, L>),
    /// Look up whom the schedule names as the leader of the slot, with the stored shred at hand.
    LookUpLeaderOfShred(AwaitingLeaderOfShred<'a>),
    /// Read what the stored shred says of itself.
    ParseShred(AwaitingParsedShred<'a>),
    /// Make a shredder.
    MakeShredder(AwaitingShredder),
    /// Make shreds.
    MakeShreds(AwaitingShreds),
    /// Answer with this shred.
    Respond(ResponseKind, Vec<u8>),
    /// Give no answer.
    Decline,
}

/// Waits for the leader of the slot.
pub struct AwaitingLeader<'a> {
    pub request: RepairRequest<'a>,
}

/// Waits for the shred from the block made for the requester.
pub struct AwaitingEquivocatingShred<'a> {
    pub request: RepairRequest<'a>,
    /// Who asks.
    pub requester: [u8; 32],
}

/// Waits for where the ledger keeps the block.
pub struct AwaitingLocation<'a> {
    pub request: RepairRequest<'a>,
    pub block_id: [u8; 32],
}

/// Waits for the stored shred.
pub struct AwaitingOriginal<'a, L> {
    pub request: RepairRequest<'a>,
    /// Where the block is kept, where the requester named one.
    pub location: Option<L>,
}

/// Has the stored shred; waits for the leader of the slot.
pub struct AwaitingLeaderOfShred<'a> {
    pub request: RepairRequest<'a>,
    pub original: Vec<u8>,
}

/// Waits for what the stored shred says of itself.
pub struct AwaitingParsedShred<'a> {
    pub request: RepairRequest<'a>,
    pub original: Vec<u8>,
}

/// Waits for a shredder.
pub struct AwaitingShredder {
    pub original: Vec<u8>,
    pub generation: ShredGeneration,
}

/// Waits for shreds.
pub struct AwaitingShreds {
    pub original: Vec<u8>,
    pub generation: ShredGeneration,
}

impl<'a> RepairRequest<'a> {
    /// The slot, and who asks for it: what the block made for the requester is kept by.
    pub open spec fn block_key(self) -> (Slot, Seq<u8>) {
        (self.slot, sha256(seq![self.ip.octets()]))
    }

    /// Whether this node is the leader that the schedule names, and the shred is one to respond
    /// maliciously for.
    pub open spec fn equivocates(self, slot_leader: Option<[u8; 32]>) -> bool {
        &&& self.handler.is_leader(slot_leader)
        &&& self.handler.configuration().selects(self.slot, self.shred_index)
    }

    /// Whether the answer of the schedule can be taken: the frequencies are divided by only where
    /// this node is the leader.
    pub open spec fn can_take_leader(self, slot_leader: Option<[u8; 32]>) -> bool {
        self.handler.is_leader(slot_leader) ==> self.handler.configuration().frequencies_nonzero()
    }

    /// The first step of a request.
    pub open spec fn first_step<L>(self) -> RepairStep<'a, L> {
        if self.handler.configuration().per_requester_equivocation && self.block_id is None {
            RepairStep::LookUpLeader(AwaitingLeader { request: self })
        } else {
            self.original_step()
        }
    }

    /// The step towards the stored shred.
    pub open spec fn original_step<L>(self) -> RepairStep<'a, L> {
        match self.block_id {
            None => RepairStep::ReadShred(AwaitingOriginal { request: self, location: None }),
            Some(block_id) => RepairStep::LocateBlock(
                AwaitingLocation { request: self, block_id },
            ),
        }
    }

    /// Goes on to the stored shred.
    fn read_original<L>(self) -> (step: RepairStep<'a, L>)
        ensures
            step == self.original_step::<L>(),
    {
        match self.block_id {
            None => RepairStep::ReadShred(AwaitingOriginal { request: self, location: None }),
            Some(block_id) => RepairStep::LocateBlock(
                AwaitingLocation { request: self, block_id },
            ),
        }
    }

    /// Whether to respond maliciously, given the leader of the slot.
    fn decide(&self, slot_leader: Option<[u8; 32]>) -> (equivocate: bool)
        requires
            self.can_take_leader(slot_leader),
        ensures
            equivocate == self.equivocates(slot_leader),
    {
        self.handler.is_leader_for_slot(slot_leader) && self.handler.should_respond_maliciously(
            self.slot,
            self.shred_index,
        )
    }
}

impl MaliciousRepairHandler {
    /// Starts to answer a request for a shred.
    pub fn repair_response_packet<'a, L>(
        &'a self,
        slot: Slot,
        shred_index: u64,
        block_id: Option<[u8; 32]>,
        ip: IpOctets,
    ) -> (step: RepairStep<'a, L>)
        ensures
            step == (RepairRequest { handler: self, slot, shred_index, block_id, ip }).first_step::<
                L,
            >(),
    {
        let request = RepairRequest { handler: self, slot, shred_index, block_id, ip };
        if self.config().per_requester_equivocation && block_id.is_none() {
            RepairStep::LookUpLeader(AwaitingLeader { request })
        } else {
            request.read_original()
        }
    }
}

impl<'a> AwaitingLeader<'a> {
    /// Whether `step` follows this answer: to the block made for the requester, or to the stored
    /// shred.
    pub open spec fn followed_by<L>(
        self,
        slot_leader: Option<[u8; 32]>,
        step: RepairStep<'a, L>,
    ) -> bool {
        if self.request.equivocates(slot_leader) {
            &&& step matches RepairStep::GetEquivocatingShred(waiting)
            &&& waiting.request == self.request
            &&& (self.request.slot, waiting.requester@) == self.request.block_key()
        } else {
            step == self.request.original_step::<L>()
        }
    }

    /// Goes on with the leader of the slot.
    pub fn with_leader<L>(self, slot_leader: Option<[u8; 32]>) -> (step: RepairStep<'a, L>)
        requires
            self.request.can_take_leader(slot_leader),
        ensures
            self.followed_by(slot_leader, step),
    {
        if self.request.decide(slot_leader) {
            let requester = self.request.handler.requester_identity(&self.request.ip);
            RepairStep::GetEquivocatingShred(
                AwaitingEquivocatingShred { request: self.request, requester },
            )
        } else {
            self.request.read_original()
        }
    }
}

impl<'a> AwaitingEquivocatingShred<'a> {
    /// The step that follows this answer.
    pub open spec fn next_step<L>(self, shred: Option<Vec<u8>>) -> RepairStep<'a, L> {
        match shred {
            Some(shred) => RepairStep::Respond(ResponseKind::PerRequester, shred),
            None => self.request.original_step(),
        }
    }

    /// Goes on with the shred from the block made for the requester; falls back on the stored one.
    pub fn with_equivocating_shred<L>(self, shred: Option<Vec<u8>>) -> (step: RepairStep<'a, L>)
        ensures
            step == self.next_step::<L>(shred),
    {
        match shred {
            Some(shred) => RepairStep::Respond(ResponseKind::PerRequester, shred),
            None => self.request.read_original(),
        }
    }
}

impl<'a> AwaitingLocation<'a> {
    /// The step that follows this answer.
    pub open spec fn next_step<L>(self, location: Option<L>) -> RepairStep<'a, L> {
        match location {
            Some(_) => RepairStep::ReadShred(AwaitingOriginal { request: self.request, location }),
            None => RepairStep::Decline,
        }
    }

    /// Goes on with where the ledger keeps the block; ends where it does not have it.
    pub fn with_location<L>(self, location: Option<L>) -> (step: RepairStep<'a, L>)
        ensures
            step == self.next_step(location),
    {
        if location.is_some() {
            RepairStep::ReadShred(AwaitingOriginal { request: self.request, location })
        } else {
            RepairStep::Decline
        }
    }
}

impl<'a, L> AwaitingOriginal<'a, L> {
    /// The step that follows this answer.
    pub open spec fn next_step(self, original: Option<Vec<u8>>) -> RepairStep<'a, L> {
        match original {
            Some(original) => if self.request.block_id is None
                && !self.request.handler.configuration().per_requester_equivocation {
                RepairStep::LookUpLeaderOfShred(
                    AwaitingLeaderOfShred { request: self.request, original },
                )
            } else {
                RepairStep::Respond(ResponseKind::Original, original)
            },
            None => RepairStep::Decline,
        }
    }

    /// Goes on with the stored shred; ends where there is none.
    pub fn with_shred(self, original: Option<Vec<u8>>) -> (step: RepairStep<'a, L>)
        ensures
            step == self.next_step(original),
    {
        match original {
            Some(original) => {
                if self.request.block_id.is_none()
                    && !self.request.handler.config().per_requester_equivocation {
                    RepairStep::LookUpLeaderOfShred(
                        AwaitingLeaderOfShred { request: self.request, original },
                    )
                } else {
                    RepairStep::Respond(ResponseKind::Original, original)
                }
            },
            None => RepairStep::Decline,
        }
    }
}

impl<'a> AwaitingLeaderOfShred<'a> {
    /// The step that follows this answer.
    pub open spec fn next_step<L>(self, slot_leader: Option<[u8; 32]>) -> RepairStep<'a, L> {
        if self.request.equivocates(slot_leader) {
            RepairStep::ParseShred(
                AwaitingParsedShred { request: self.request, original: self.original },
            )
        } else {
            RepairStep::Respond(ResponseKind::Original, self.original)
        }
    }

    /// Goes on with the leader of the slot.
    pub fn with_leader<L>(self, slot_leader: Option<[u8; 32]>) -> (step: RepairStep<'a, L>)
        requires
            self.request.can_take_leader(slot_leader),
        ensures
            step == self.next_step::<L>(slot_leader),
    {
        if self.request.decide(slot_leader) {
            RepairStep::ParseShred(
                AwaitingParsedShred { request: self.request, original: self.original },
            )
        } else {
            RepairStep::Respond(ResponseKind::Original, self.original)
        }
    }
}

impl<'a> AwaitingParsedShred<'a> {
    /// The step that follows this answer.
    pub open spec fn next_step<L>(self, parsed: Result<OriginalShred, ShredError>) -> RepairStep<
        'a,
        L,
    > {
        match parsed {
            Ok(shred) => match generation_for(
                shred,
                self.request.shred_index,
                self.request.handler.secret_key(),
            ) {
                Some(generation) => RepairStep::MakeShredder(
                    AwaitingShredder { original: self.original, generation },
                ),
                None => RepairStep::Respond(ResponseKind::Original, self.original),
            },
            Err(_) => RepairStep::Respond(ResponseKind::Original, self.original),
        }
    }

    /// Goes on with what the stored shred says of itself; falls back on that shred.
    pub fn with_parsed<L>(self, parsed: Result<OriginalShred, ShredError>) -> (step: RepairStep<
        'a,
        L,
    >)
        ensures
            step == self.next_step::<L>(parsed),
    {
        let generation = match parsed {
            Ok(shred) => self.request.handler.generate_equivocating_shred(
                &shred,
                self.request.shred_index,
            ),
            Err(_) => None,
        };
        match generation {
            Some(generation) => RepairStep::MakeShredder(
                AwaitingShredder { original: self.original, generation },
            ),
            None => RepairStep::Respond(ResponseKind::Original, self.original),
        }
    }
}

impl AwaitingShredder {
    /// The step that follows this answer.
    pub open spec fn next_step<'a, L>(self, shredder: Result<(), ShredderError>) -> RepairStep<
        'a,
        L,
    > {
        match shredder {
            Ok(_) => RepairStep::MakeShreds(
                AwaitingShreds { original: self.original, generation: self.generation },
            ),
            Err(_) => RepairStep::Respond(ResponseKind::Original, self.original),
        }
    }

    /// Goes on with the shredder; falls back on the stored shred.
    pub fn with_shredder<'a, L>(self, shredder: Result<(), ShredderError>) -> (step: RepairStep<
        'a,
        L,
    >)
        ensures
            step == self.next_step::<'a, L>(shredder),
    {
        match shredder {
            Ok(_) => RepairStep::MakeShreds(
                AwaitingShreds { original: self.original, generation: self.generation },
            ),
            Err(_) => RepairStep::Respond(ResponseKind::Original, self.original),
        }
    }
}

impl AwaitingShreds {
    /// The step that follows this answer.
    pub open spec fn next_step<'a, L>(self, shreds: Seq<Shred>) -> RepairStep<'a, L> {
        match first_data_shred(shreds) {
            Some(shred) => RepairStep::Respond(ResponseKind::PerShred, shred.payload),
            None => RepairStep::Respond(ResponseKind::Original, self.original),
        }
    }

    /// Goes on with the shreds: the first data shred is the answer; falls back on the stored shred.
    pub fn with_shreds<'a, L>(self, shreds: Vec<Shred>) -> (step: RepairStep<'a, L>)
        ensures
            step == self.next_step::<'a, L>(shreds@),
    {
        match first_data_payload(shreds) {
            Some(payload) => RepairStep::Respond(ResponseKind::PerShred, payload),
            None => RepairStep::Respond(ResponseKind::Original, self.original),
        }
    }
}

/// What the schedule, the ledger and the shredder answer to every question that a request may
/// raise.
pub struct RepairAnswers<L> {
    pub slot_leader: Option<[u8; 32]>,
    pub equivocating_shred: Option<Vec<u8>>,
    pub location: Option<L>,
    pub original: Option<Vec<u8>>,
    pub parsed: Result<OriginalShred, ShredError>,
    pub shredder: Result<(), ShredderError>,
    pub shreds: Seq<Shred>,
}

impl<L> RepairAnswers<L> {
    /// The shred made in place of the stored one, where it can be made.
    pub open spec fn replacement(self) -> Option<Vec<u8>> {
        match self.parsed {
            Ok(shred) => if shred.parent is Ok && self.shredder is Ok {
                match first_data_shred(self.shreds) {
                    Some(shred) => Some(shred.payload),
                    None => None,
                }
            } else {
                None
            },
            Err(_) => None,
        }
    }

    /// Whether `generation` is what the stored shred calls for, signed with the key of this node.
    pub open spec fn generates(self, request: RepairRequest, generation: ShredGeneration) -> bool {
        &&& self.parsed is Ok
        &&& generation_for(self.parsed->Ok_0, request.shred_index, request.handler.secret_key())
            == Some(generation)
    }

    /// The stored shred that the request is about, where the ledger has it.
    pub open spec fn stored(self, request: RepairRequest) -> Option<Vec<u8>> {
        if request.block_id is Some && self.location is None {
            None
        } else {
            self.original
        }
    }

    /// How a request is answered: with a shred of the block made for the requester, with a shred
    /// made in place of the stored one, with the stored one, or not at all.
    pub open spec fn answer(self, request: RepairRequest) -> Option<(ResponseKind, Vec<u8>)> {
        let per_requester = request.handler.configuration().per_requester_equivocation;
        let equivocate = request.block_id is None && request.equivocates(self.slot_leader);
        if per_requester && equivocate && self.equivocating_shred is Some {
            Some((ResponseKind::PerRequester, self.equivocating_shred->0))
        } else if self.stored(request) is None {
            None
        } else if !per_requester && equivocate && self.replacement() is Some {
            Some((ResponseKind::PerShred, self.replacement()->0))
        } else {
            Some((ResponseKind::Original, self.stored(request)->0))
        }
    }

    /// Whether `next` is the step that follows `step` with these answers.
    pub open spec fn leads_to<'a>(self, step: RepairStep<'a, L>, next: RepairStep<'a, L>) -> bool {
        match step {
            RepairStep::LookUpLeader(waiting) => waiting.followed_by(self.slot_leader, next),
            RepairStep::GetEquivocatingShred(waiting) => next == waiting.next_step::<L>(
                self.equivocating_shred,
            ),
            RepairStep::LocateBlock(waiting) => next == waiting.next_step(self.location),
            RepairStep::ReadShred(waiting) => next == waiting.next_step(self.original),
            RepairStep::LookUpLeaderOfShred(waiting) => next == waiting.next_step::<L>(
                self.slot_leader,
            ),
            RepairStep::ParseShred(waiting) => next == waiting.next_step::<L>(self.parsed),
            RepairStep::MakeShredder(waiting) => next == waiting.next_step::<'a, L>(self.shredder),
            RepairStep::MakeShreds(waiting) => next == waiting.next_step::<'a, L>(self.shreds),
            RepairStep::Respond(_, _) => false,
            RepairStep::Decline => false,
        }
    }

    /// Whether `steps` are the steps of `request` with these answers, from the first to one at
    /// which there is nothing left to ask.
    pub open spec fn is_run<'a>(
        self,
        request: RepairRequest<'a>,
        steps: Seq<RepairStep<'a, L>>,
    ) -> bool {
        &&& steps.len() > 0
        &&& steps[0] == request.first_step::<L>()
        &&& forall|i: int|
            0 <= i < steps.len() - 1 ==> self.leads_to(#[trigger] steps[i], steps[i + 1])
        &&& questions_left(steps.last()) == 0
    }

    /// How a request is answered that has come to the stored shred.
    spec fn stored_answer(self, request: RepairRequest) -> Option<(ResponseKind, Vec<u8>)> {
        let honest = request.block_id is Some
            || request.handler.configuration().per_requester_equivocation
            || !request.equivocates(self.slot_leader);
        if self.stored(request) is None {
            None
        } else if !honest && self.replacement() is Some {
            Some((ResponseKind::PerShred, self.replacement()->0))
        } else {
            Some((ResponseKind::Original, self.stored(request)->0))
        }
    }

    /// How a request is answered that has come to `step`.
    spec fn answer_from(self, step: RepairStep<L>) -> Option<(ResponseKind, Vec<u8>)> {
        match step {
            RepairStep::LookUpLeader(waiting) => if waiting.request.equivocates(self.slot_leader)
                && self.equivocating_shred is Some {
                Some((ResponseKind::PerRequester, self.equivocating_shred->0))
            } else {
                self.stored_answer(waiting.request)
            },
            RepairStep::GetEquivocatingShred(waiting) => if self.equivocating_shred is Some {
                Some((ResponseKind::PerRequester, self.equivocating_shred->0))
            } else {
                self.stored_answer(waiting.request)
            },
            RepairStep::LocateBlock(waiting) => self.stored_answer(waiting.request),
            RepairStep::ReadShred(waiting) => match self.original {
                Some(original) => {
                    let request = waiting.request;
                    if request.block_id is None
                        && !request.handler.configuration().per_requester_equivocation
                        && request.equivocates(self.slot_leader) {
                        self.replaced(original)
                    } else {
                        Some((ResponseKind::Original, original))
                    }
                },
                None => None,
            },
            RepairStep::LookUpLeaderOfShred(waiting) => if waiting.request.equivocates(
                self.slot_leader,
            ) {
                self.replaced(waiting.original)
            } else {
                Some((ResponseKind::Original, waiting.original))
            },
            RepairStep::ParseShred(waiting) => self.replaced(waiting.original),
            RepairStep::MakeShredder(waiting) => if self.shredder is Ok {
                self.replaced_by_shreds(waiting.original)
            } else {
                Some((ResponseKind::Original, waiting.original))
            },
            RepairStep::MakeShreds(waiting) => self.replaced_by_shreds(waiting.original),
            RepairStep::Respond(kind, shred) => Some((kind, shred)),
            RepairStep::Decline => None,
        }
    }

    spec fn replaced(self, original: Vec<u8>) -> Option<(ResponseKind, Vec<u8>)> {
        match self.replacement() {
            Some(payload) => Some((ResponseKind::PerShred, payload)),
            None => Some((ResponseKind::Original, original)),
        }
    }

    spec fn replaced_by_shreds(self, original: Vec<u8>) -> Option<(ResponseKind, Vec<u8>)> {
        match first_data_shred(self.shreds) {
            Some(shred) => Some((ResponseKind::PerShred, shred.payload)),
            None => Some((ResponseKind::Original, original)),
        }
    }
}

/// A bound on the number of questions that may still be asked after `step`.
pub open spec fn questions_left<L>(step: RepairStep<L>) -> nat {
    match step {
        RepairStep::LookUpLeader(_) => 8,
        RepairStep::GetEquivocatingShred(_) => 7,
        RepairStep::LocateBlock(_) => 6,
        RepairStep::ReadShred(_) => 5,
        RepairStep::LookUpLeaderOfShred(_) => 4,
        RepairStep::ParseShred(_) => 3,
        RepairStep::MakeShredder(_) => 2,
        RepairStep::MakeShreds(_) => 1,
        RepairStep::Respond(_, _) => 0,
        RepairStep::Decline => 0,
    }
}

proof fn lemma_answer_is_kept<'a, L>(
    answers: RepairAnswers<L>,
    request: RepairRequest<'a>,
    steps: Seq<RepairStep<'a, L>>,
    n: int,
)
    requires
        answers.is_run(request, steps),
        0 <= n < steps.len(),
    ensures
        answers.answer_from(steps[n]) == answers.answer(request),
    decreases n,
{
    if n > 0 {
        lemma_answer_is_kept(answers, request, steps, n - 1);
        assert(answers.leads_to(steps[n - 1], steps[n - 1 + 1]));
    }
}

/// The steps of a request end in its answer: the shred that it gives, of the kind that
/// it gives, or none.
pub proof fn law_request_ends_in_its_answer<'a, L>(
    answers: RepairAnswers<L>,
    request: RepairRequest<'a>,
    steps: Seq<RepairStep<'a, L>>,
)
    requires
        answers.is_run(request, steps),
    ensures
        steps.last() == (match answers.answer(request) {
            Some((kind, shred)) => RepairStep::<'a, L>::Respond(kind, shred),
            None => RepairStep::<'a, L>::Decline,
        }),
{
    lemma_answer_is_kept(answers, request, steps, steps.len() - 1);
}

/// Every answer brings a request closer to its end, which it reaches after eight at most.
pub proof fn law_every_answer_is_progress<'a, L>(
    answers: RepairAnswers<L>,
    step: RepairStep<'a, L>,
    next: RepairStep<'a, L>,
)
    requires
        answers.leads_to(step, next),
    ensures
        questions_left(next) < questions_left(step) <= 8,
{
}

/// A request is answered with the stored shred, if there is one, and with no other, where it names
/// a block, where this node is not the leader of the slot, and where the shred is not one to
/// respond maliciously for.
pub proof fn law_other_requests_get_the_stored_shred<L>(
    answers: RepairAnswers<L>,
    request: RepairRequest,
)
    requires
        request.block_id is Some || !request.handler.is_leader(answers.slot_leader)
            || !request.handler.configuration().selects(request.slot, request.shred_index),
    ensures
        answers.answer(request) == (match answers.stored(request) {
            Some(shred) => Some((ResponseKind::Original, shred)),
            None => None,
        }),
{
}

/// Without a frequency, no request is answered maliciously.
pub proof fn law_no_frequency_no_malice<L>(answers: RepairAnswers<L>, request: RepairRequest)
    requires
        request.handler.configuration().bad_shred_slot_frequency is None,
        request.handler.configuration().bad_shred_index_frequency is None,
    ensures
        answers.answer(request) == (match answers.stored(request) {
            Some(shred) => Some((ResponseKind::Original, shred)),
            None => None,
        }),
{
}

/// The two ways to equivocate exclude one another: a handler set up for blocks per requester never
/// makes single shreds, and one that is not never takes shreds from such a block.
pub proof fn law_modes_exclude_one_another<L>(answers: RepairAnswers<L>, request: RepairRequest)
    ensures
        answers.answer(request) matches Some((kind, _)) ==> (if request.handler.configuration().per_requester_equivocation {
            kind != ResponseKind::PerShred
        } else {
            kind != ResponseKind::PerRequester
        }),
{
}

/// Whether `step` is about `request`, and makes a shred in place of the stored one from what that
/// one says of itself.
spec fn is_about<'a, L>(
    answers: RepairAnswers<L>,
    request: RepairRequest<'a>,
    step: RepairStep<'a, L>,
) -> bool {
    match step {
        RepairStep::LookUpLeader(waiting) => waiting.request == request,
        RepairStep::GetEquivocatingShred(waiting) => waiting.request == request,
        RepairStep::LocateBlock(waiting) => waiting.request == request,
        RepairStep::ReadShred(waiting) => waiting.request == request,
        RepairStep::LookUpLeaderOfShred(waiting) => waiting.request == request,
        RepairStep::ParseShred(waiting) => waiting.request == request,
        RepairStep::MakeShredder(waiting) => answers.generates(request, waiting.generation),
        RepairStep::MakeShreds(waiting) => answers.generates(request, waiting.generation),
        RepairStep::Respond(_, _) => true,
        RepairStep::Decline => true,
    }
}

proof fn lemma_steps_are_about_the_request<'a, L>(
    answers: RepairAnswers<L>,
    request: RepairRequest<'a>,
    steps: Seq<RepairStep<'a, L>>,
    n: int,
)
    requires
        answers.is_run(request, steps),
        0 <= n < steps.len(),
    ensures
        is_about(answers, request, steps[n]),
    decreases n,
{
    if n > 0 {
        lemma_steps_are_about_the_request(answers, request, steps, n - 1);
        assert(answers.leads_to(steps[n - 1], steps[n - 1 + 1]));
    }
}

/// Whenever shreds are ordered in place of the stored one, they have its slot, parent, version and
/// chained root, stand at the index that was asked for, and are signed with the key of this node.
pub proof fn law_replacement_is_signed_by_this_node<'a, L>(
    answers: RepairAnswers<L>,
    request: RepairRequest<'a>,
    steps: Seq<RepairStep<'a, L>>,
    n: int,
    fake_hash: Seq<u8>,
    batch: ShredBatch,
)
    requires
        answers.is_run(request, steps),
        0 <= n < steps.len(),
        steps[n] matches RepairStep::MakeShreds(waiting) && waiting.generation.ordered(
            fake_hash,
            batch,
        ),
    ensures
        answers.generates(request, steps[n]->MakeShreds_0.generation),
        batch.keypair == request.handler.secret_key(),
        batch.next_shred_index == request.shred_index as u32,
{
    lemma_steps_are_about_the_request(answers, request, steps, n);
}

/// A requester that once got a shred of the block made for it gets every later shred of that slot,
/// if it is one of a block made for it, from that same block, whatever anyone asked for in between
/// and whatever else was made in the meantime. Asking for the same shred again, it gets the same
/// bytes again.
pub proof fn law_requester_keeps_its_block<L>(
    blocks: BlocksByRequester,
    request: RepairRequest,
    answers: RepairAnswers<L>,
    between: Seq<ServedRequest>,
    generated: Option<CachedEquivocatingBlock>,
    later: RepairRequest,
    later_answers: RepairAnswers<L>,
)
    requires
        bytes_of(answers.equivocating_shred) == shred_at(
            blocks,
            request.block_key(),
            request.shred_index,
        ),
        answers.answer(request) matches Some((ResponseKind::PerRequester, _)),
        later.block_key() == request.block_key(),
        bytes_of(later_answers.equivocating_shred) == shred_at(
            with_generated(after_requests(blocks, between), later.block_key(), generated),
            later.block_key(),
            later.shred_index,
        ),
    ensures
        later_answers.answer(later) matches Some((ResponseKind::PerRequester, shred)) ==> Some(
            shred@,
        ) == shred_at(blocks, request.block_key(), later.shred_index),
        later == request && later_answers.slot_leader == answers.slot_leader ==> {
            &&& later_answers.answer(later) matches Some((ResponseKind::PerRequester, shred))
            &&& answers.answer(request) matches Some((_, first))
            &&& shred@ == first@
        },
{
    law_responses_are_consistent(
        blocks,
        request.block_key(),
        between,
        generated,
        later.shred_index,
    );
}

/// A leader set up for blocks per requester answers a request that names no block, for a shred to
/// respond maliciously for, with the shred of the block made for the requester, where there is one,
/// whatever the ledger holds.
pub proof fn law_requester_gets_a_shred_of_its_block<'a, L>(
    answers: RepairAnswers<L>,
    request: RepairRequest<'a>,
    steps: Seq<RepairStep<'a, L>>,
    leader: [u8; 32],
    shred: Vec<u8>,
)
    requires
        answers.is_run(request, steps),
        request.handler.configuration().per_requester_equivocation,
        request.block_id is None,
        answers.slot_leader == Some(leader),
        leader@ == public_key(request.handler.secret_key()@),
        request.handler.configuration().selects(request.slot, request.shred_index),
        answers.equivocating_shred == Some(shred),
    ensures
        steps.last() == RepairStep::<'a, L>::Respond(ResponseKind::PerRequester, shred),
{
    law_request_ends_in_its_answer(answers, request, steps);
}

/// A leader not set up for blocks per requester answers a request that names no block, for a stored
/// shred to respond maliciously for, with the first data shred that the shredder made in its place,
/// the one at `first`.
pub proof fn law_stored_shred_is_replaced<'a, L>(
    answers: RepairAnswers<L>,
    request: RepairRequest<'a>,
    steps: Seq<RepairStep<'a, L>>,
    leader: [u8; 32],
    first: int,
)
    requires
        answers.is_run(request, steps),
        !request.handler.configuration().per_requester_equivocation,
        request.block_id is None,
        answers.slot_leader == Some(leader),
        leader@ == public_key(request.handler.secret_key()@),
        request.handler.configuration().selects(request.slot, request.shred_index),
        answers.original is Some,
        answers.parsed is Ok,
        answers.parsed->Ok_0.parent is Ok,
        answers.shredder is Ok,
        0 <= first < answers.shreds.len(),
        answers.shreds[first].is_data,
        forall|j: int| 0 <= j < first ==> !(#[trigger] answers.shreds[j]).is_data,
    ensures
        steps.last() == RepairStep::<'a, L>::Respond(
            ResponseKind::PerShred,
            answers.shreds[first].payload,
        ),
{
    law_first_data_shred_has_none_before(answers.shreds, first);
    law_request_ends_in_its_answer(answers, request, steps);
}

/// The stored shred is the answer, as it is stored, to every request that names a block that the
/// ledger has, that comes to a node that is not the leader, or that is for a shred not to respond
/// maliciously for; and also where no shred can be had to equivocate with.
pub proof fn law_stored_shred_is_the_answer<'a, L>(
    answers: RepairAnswers<L>,
    request: RepairRequest<'a>,
    steps: Seq<RepairStep<'a, L>>,
    original: Vec<u8>,
)
    requires
        answers.is_run(request, steps),
        answers.original == Some(original),
        request.block_id is Some ==> answers.location is Some,
        ({
            let per_requester = request.handler.configuration().per_requester_equivocation;
            ||| request.block_id is Some
            ||| answers.slot_leader is None
            ||| answers.slot_leader->0@ != public_key(request.handler.secret_key()@)
            ||| !request.handler.configuration().selects(request.slot, request.shred_index)
            ||| per_requester && answers.equivocating_shred is None
            ||| !per_requester && answers.parsed is Err
            ||| !per_requester && answers.parsed is Ok && answers.parsed->Ok_0.parent is Err
            ||| !per_requester && answers.shredder is Err
            ||| !per_requester && forall|j: int|
                0 <= j < answers.shreds.len() ==> !(#[trigger] answers.shreds[j]).is_data
        }),
    ensures
        steps.last() == RepairStep::<'a, L>::Respond(ResponseKind::Original, original),
{
    if forall|j: int| 0 <= j < answers.shreds.len() ==> !(#[trigger] answers.shreds[j]).is_data {
        law_no_data_shred_no_first_one(answers.shreds);
    }
    law_request_ends_in_its_answer(answers, request, steps);
}

/// There is no answer where the ledger does not have the block that is named, or does not have the
/// shred, unless there is a shred of the block made for the requester to give.
pub proof fn law_missing_shred_is_not_answered<'a, L>(
    answers: RepairAnswers<L>,
    request: RepairRequest<'a>,
    steps: Seq<RepairStep<'a, L>>,
)
    requires
        answers.is_run(request, steps),
        request.block_id is Some && answers.location is None || answers.original is None,
        ({
            ||| request.block_id is Some
            ||| !request.handler.configuration().per_requester_equivocation
            ||| answers.equivocating_shred is None
            ||| answers.slot_leader is None
            ||| answers.slot_leader->0@ != public_key(request.handler.secret_key()@)
            ||| !request.handler.configuration().selects(request.slot, request.shred_index)
        }),
    ensures
        steps.last() == RepairStep::<'a, L>::Decline,
{
    law_request_ends_in_its_answer(answers, request, steps);
}

/// Whether `step` may be asked of the schedule, the ledger and the shredder for `request`.
spec fn is_called_for<'a, L>(
    answers: RepairAnswers<L>,
    request: RepairRequest<'a>,
    step: RepairStep<'a, L>,
) -> bool {
    let per_requester = request.handler.configuration().per_requester_equivocation;
    match step {
        RepairStep::LookUpLeader(_) => per_requester && request.block_id is None,
        RepairStep::GetEquivocatingShred(waiting) => {
            &&& per_requester && request.block_id is None
            &&& request.equivocates(answers.slot_leader)
            &&& (request.slot, waiting.requester@) == request.block_key()
        },
        RepairStep::LocateBlock(waiting) => request.block_id == Some(waiting.block_id),
        RepairStep::ReadShred(waiting) => {
            &&& request.block_id is None ==> waiting.location is None
            &&& request.block_id is Some ==> answers.location is Some && waiting.location
                == answers.location
        },
        RepairStep::LookUpLeaderOfShred(waiting) => {
            &&& !per_requester && request.block_id is None
            &&& answers.original == Some(waiting.original)
        },
        RepairStep::ParseShred(waiting) => {
            &&& !per_requester && request.block_id is None
            &&& request.equivocates(answers.slot_leader)
            &&& answers.original == Some(waiting.original)
        },
        RepairStep::MakeShredder(waiting) => {
            &&& !per_requester && request.block_id is None
            &&& request.equivocates(answers.slot_leader)
            &&& answers.original == Some(waiting.original)
        },
        RepairStep::MakeShreds(waiting) => {
            &&& !per_requester && request.block_id is None
            &&& request.equivocates(answers.slot_leader)
            &&& answers.original == Some(waiting.original)
            &&& answers.shredder is Ok
        },
        RepairStep::Respond(_, _) => true,
        RepairStep::Decline => true,
    }
}

proof fn lemma_steps_are_called_for<'a, L>(
    answers: RepairAnswers<L>,
    request: RepairRequest<'a>,
    steps: Seq<RepairStep<'a, L>>,
    n: int,
)
    requires
        answers.is_run(request, steps),
        0 <= n < steps.len(),
    ensures
        is_called_for(answers, request, steps[n]),
    decreases n,
{
    if n > 0 {
        lemma_steps_are_called_for(answers, request, steps, n - 1);
        lemma_steps_are_about_the_request(answers, request, steps, n - 1);
        assert(answers.leads_to(steps[n - 1], steps[n - 1 + 1]));
    }
}

/// The ledger is asked for the block that the request names, and for the shred in the place where
/// the ledger has that block, or in no particular place where the request names none.
pub proof fn law_ledger_is_asked_for_the_named_block<'a, L>(
    answers: RepairAnswers<L>,
    request: RepairRequest<'a>,
    steps: Seq<RepairStep<'a, L>>,
    n: int,
)
    requires
        answers.is_run(request, steps),
        0 <= n < steps.len(),
    ensures
        steps[n] matches RepairStep::LocateBlock(waiting) ==> waiting.request == request
            && request.block_id == Some(waiting.block_id),
        steps[n] matches RepairStep::ReadShred(waiting) ==> {
            &&& waiting.request == request
            &&& request.block_id is None ==> waiting.location is None
            &&& request.block_id is Some ==> answers.location is Some && waiting.location
                == answers.location
        },
{
    lemma_steps_are_called_for(answers, request, steps, n);
    lemma_steps_are_about_the_request(answers, request, steps, n);
}

/// A block is made for a requester only by the leader, in the mode for it, for a request that names
/// no block and is for a shred to respond maliciously for. The requester is known by the digest of
/// the bytes of its address.
pub proof fn law_block_is_made_only_to_equivocate<'a, L>(
    answers: RepairAnswers<L>,
    request: RepairRequest<'a>,
    steps: Seq<RepairStep<'a, L>>,
    n: int,
    waiting: AwaitingEquivocatingShred<'a>,
)
    requires
        answers.is_run(request, steps),
        0 <= n < steps.len(),
        steps[n] == RepairStep::<'a, L>::GetEquivocatingShred(waiting),
    ensures
        waiting.request == request,
        request.handler.configuration().per_requester_equivocation,
        request.block_id is None,
        answers.slot_leader is Some,
        answers.slot_leader->0@ == public_key(request.handler.secret_key()@),
        request.handler.configuration().selects(request.slot, request.shred_index),
        request.ip matches IpOctets::V4(octets) ==> waiting.requester@ == sha256(seq![octets@]),
        request.ip matches IpOctets::V6(octets) ==> waiting.requester@ == sha256(seq![octets@]),
{
    lemma_steps_are_called_for(answers, request, steps, n);
    lemma_steps_are_about_the_request(answers, request, steps, n);
}

/// Shreds are ordered in place of a stored one only by the leader, not in the mode for blocks per
/// requester, for a request that names no block and is for a shred to respond maliciously for. What
/// is ordered has the slot, the parent, the version, the chained root and the end of the slot from
/// what the stored shred says of itself, stands at the index asked for, and is signed with the key of
/// this node.
pub proof fn law_ordered_shreds_take_after_the_stored_one<'a, L>(
    answers: RepairAnswers<L>,
    request: RepairRequest<'a>,
    steps: Seq<RepairStep<'a, L>>,
    n: int,
    waiting: AwaitingShreds,
    params: ShredderParams,
    fake_hash: [u8; 32],
    batch: ShredBatch,
)
    requires
        answers.is_run(request, steps),
        0 <= n < steps.len(),
        steps[n] == RepairStep::<'a, L>::MakeShreds(waiting),
        call_ensures(ShredGeneration::shredder, (&waiting.generation,), params),
        call_ensures(ShredGeneration::batch_from, (&waiting.generation, &fake_hash), batch),
    ensures
        !request.handler.configuration().per_requester_equivocation,
        request.block_id is None,
        answers.slot_leader is Some,
        answers.slot_leader->0@ == public_key(request.handler.secret_key()@),
        request.handler.configuration().selects(request.slot, request.shred_index),
        answers.original == Some(waiting.original),
        answers.parsed is Ok,
        ({
            let stored = answers.parsed->Ok_0;
            &&& params.slot == stored.slot
            &&& stored.parent is Ok
            &&& params.parent_slot == stored.parent->Ok_0
            &&& params.version == stored.version
            &&& params.reference_tick == 0
            &&& batch.is_last_in_slot == stored.last_in_slot
            &&& stored.chained_merkle_root is Ok ==> batch.chained_merkle_root == Some(
                stored.chained_merkle_root->Ok_0,
            )
            &&& stored.chained_merkle_root is Err ==> batch.chained_merkle_root is None
        }),
        request.shred_index <= u32::MAX ==> batch.next_shred_index == request.shred_index,
        batch.next_code_index == 0,
        batch.keypair == request.handler.secret_key(),
{
    lemma_steps_are_called_for(answers, request, steps, n);
    lemma_steps_are_about_the_request(answers, request, steps, n);
}

/// What each call returns is the step that follows its answer, and what starts a request is its
/// first step: a request that is taken from call to call makes the run that the laws speak of.
pub proof fn law_calls_make_the_run<'a, L>(
    answers: RepairAnswers<L>,
    request: RepairRequest<'a>,
    step: RepairStep<'a, L>,
    shreds: Vec<Shred>,
    next: RepairStep<'a, L>,
)
    requires
        shreds@ == answers.shreds,
    ensures
        call_ensures(
            MaliciousRepairHandler::repair_response_packet::<L>,
            (request.handler, request.slot, request.shred_index, request.block_id, request.ip),
            next,
        ) ==> next == request.first_step::<L>(),
        step matches RepairStep::LookUpLeader(waiting) && call_ensures(
            AwaitingLeader::<'a>::with_leader::<L>,
            (waiting, answers.slot_leader),
            next,
        ) ==> answers.leads_to(step, next),
        step matches RepairStep::GetEquivocatingShred(waiting) && call_ensures(
            AwaitingEquivocatingShred::<'a>::with_equivocating_shred::<L>,
            (waiting, answers.equivocating_shred),
            next,
        ) ==> answers.leads_to(step, next),
        step matches RepairStep::LocateBlock(waiting) && call_ensures(
            AwaitingLocation::<'a>::with_location::<L>,
            (waiting, answers.location),
            next,
        ) ==> answers.leads_to(step, next),
        step matches RepairStep::ReadShred(waiting) && call_ensures(
            AwaitingOriginal::<'a, L>::with_shred,
            (waiting, answers.original),
            next,
        ) ==> answers.leads_to(step, next),
        step matches RepairStep::LookUpLeaderOfShred(waiting) && call_ensures(
            AwaitingLeaderOfShred::<'a>::with_leader::<L>,
            (waiting, answers.slot_leader),
            next,
        ) ==> answers.leads_to(step, next),
        step matches RepairStep::ParseShred(waiting) && call_ensures(
            AwaitingParsedShred::<'a>::with_parsed::<L>,
            (waiting, answers.parsed),
            next,
        ) ==> answers.leads_to(step, next),
        step matches RepairStep::MakeShredder(waiting) && call_ensures(
            AwaitingShredder::with_shredder::<L>,
            (waiting, answers.shredder),
            next,
        ) ==> answers.leads_to(step, next),
        step matches RepairStep::MakeShreds(waiting) && call_ensures(
            AwaitingShreds::with_shreds::<L>,
            (waiting, shreds),
            next,
        ) ==> answers.leads_to(step, next),
{
}

/// The leader of the slot can be taken in wherever no frequency that is set is zero.
pub proof fn law_every_leader_can_be_taken_in<'a, L>(
    awaiting: AwaitingLeader<'a>,
    awaiting_of_shred: AwaitingLeaderOfShred<'a>,
    slot_leader: Option<[u8; 32]>,
)
    requires
        awaiting_of_shred.request == awaiting.request,
        awaiting.request.handler.configuration().bad_shred_slot_frequency matches Some(frequency)
            ==> frequency > 0,
        awaiting.request.handler.configuration().bad_shred_index_frequency matches Some(frequency)
            ==> frequency > 0,
    ensures
        call_requires(AwaitingLeader::<'a>::with_leader::<L>, (awaiting, slot_leader)),
        call_requires(
            AwaitingLeaderOfShred::<'a>::with_leader::<L>,
            (awaiting_of_shred, slot_leader),
        ),
{
}

} // verus!
