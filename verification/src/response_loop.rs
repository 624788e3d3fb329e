//! The thread that takes in block id repair responses: how it counts them, and when it reports
//! the counters.
use crate::block_id_repair::{BlockIdRepairResponse, BlockIdRepairResponsesStats};
use crate::clock::{elapsed_seconds, nanos_between, seconds_between, Clock};
use crate::datapoint::Datapoint;
use vstd::prelude::*;

verus! {

/// How many whole seconds pass at least between two reports.
pub const REPORT_EVERY_SECONDS: u128 = 10;

/// How long the thread waits for responses, in milliseconds.
pub const RESPONSE_TIMEOUT_MILLIS: u64 = 200;

/// The counters of [`BlockIdRepairResponsesStats`] without a limit.
pub struct ResponseTotals {
    pub total_packets: nat,
    pub processed: nat,
    pub dropped_packets: nat,
    pub invalid_packets: nat,
    pub parent_fec_set_count_responses: nat,
    pub fec_set_root_responses: nat,
}

impl ResponseTotals {
    /// Whether the counters have room for these numbers.
    pub open spec fn fit(self) -> bool {
        &&& self.total_packets <= usize::MAX
        &&& self.processed <= usize::MAX
        &&& self.dropped_packets <= usize::MAX
        &&& self.invalid_packets <= usize::MAX
        &&& self.parent_fec_set_count_responses <= usize::MAX
        &&& self.fec_set_root_responses <= usize::MAX
    }

    /// Whether every packet was either processed or invalid, and every processed one was counted by
    /// what it brings.
    pub open spec fn balanced(self) -> bool {
        &&& self.total_packets == self.processed + self.invalid_packets
        &&& self.processed == self.parent_fec_set_count_responses + self.fec_set_root_responses
    }

    /// With one packet read: none of its bytes make a response, or they make this one.
    pub open spec fn read(self, response: Option<BlockIdRepairResponse>) -> ResponseTotals {
        match response {
            None => ResponseTotals { invalid_packets: self.invalid_packets + 1, ..self },
            Some(BlockIdRepairResponse::ParentFecSetCount) => ResponseTotals {
                processed: self.processed + 1,
                parent_fec_set_count_responses: self.parent_fec_set_count_responses + 1,
                ..self
            },
            Some(BlockIdRepairResponse::FecSetRoot) => ResponseTotals {
                processed: self.processed + 1,
                fec_set_root_responses: self.fec_set_root_responses + 1,
                ..self
            },
        }
    }

    /// With these packets read, one after the other.
    pub open spec fn read_all(self, packets: Seq<Vec<u8>>) -> ResponseTotals
        decreases packets.len(),
    {
        if packets.len() == 0 {
            self
        } else {
            self.read_all(packets.drop_last()).read(response_in(packets.last()@))
        }
    }

    /// With a batch of packets received and read.
    pub open spec fn received(self, packets: Seq<Vec<u8>>) -> ResponseTotals {
        ResponseTotals { total_packets: self.total_packets + packets.len(), ..self }.read_all(
            packets,
        )
    }

    /// With these batches received and read, one after the other.
    pub open spec fn received_all(self, batches: Seq<Vec<Vec<u8>>>) -> ResponseTotals
        decreases batches.len(),
    {
        if batches.len() == 0 {
            self
        } else {
            self.received_all(batches.drop_last()).received(batches.last()@)
        }
    }
}

/// The response that the bytes of a packet make. No packet format is recognised.
pub open spec fn response_in(packet: Seq<u8>) -> Option<BlockIdRepairResponse> {
    None
}

/// The number of packets in all of these batches.
pub open spec fn packet_count(batches: Seq<Vec<Vec<u8>>>) -> nat
    decreases batches.len(),
{
    if batches.len() == 0 {
        0
    } else {
        packet_count(batches.drop_last()) + batches.last()@.len()
    }
}

impl View for BlockIdRepairResponsesStats {
    type V = ResponseTotals;

    open spec fn view(&self) -> ResponseTotals {
        ResponseTotals {
            total_packets: self.total_packets as nat,
            processed: self.processed as nat,
            dropped_packets: self.dropped_packets as nat,
            invalid_packets: self.invalid_packets as nat,
            parent_fec_set_count_responses: self.parent_fec_set_count_responses as nat,
            fec_set_root_responses: self.fec_set_root_responses as nat,
        }
    }
}

/// Reading packets takes no counter down.
proof fn lemma_read_all_grows(totals: ResponseTotals, packets: Seq<Vec<u8>>)
    ensures
        totals.read_all(packets).fit() ==> totals.fit(),
    decreases packets.len(),
{
    if packets.len() > 0 {
        lemma_read_all_grows(totals, packets.drop_last());
    }
}

/// Where all packets can be counted, the first ones can.
proof fn lemma_read_prefix_fits(totals: ResponseTotals, packets: Seq<Vec<u8>>, n: int)
    requires
        totals.read_all(packets).fit(),
        0 <= n <= packets.len(),
    ensures
        totals.read_all(packets.take(n)).fit(),
    decreases packets.len(),
{
    if n == packets.len() {
        assert(packets.take(n) =~= packets);
    } else {
        lemma_read_prefix_fits(totals, packets.drop_last(), n);
        assert(packets.drop_last().take(n) =~= packets.take(n));
    }
}

/// Where all batches can be counted, the first ones can.
proof fn lemma_received_prefix_fits(totals: ResponseTotals, batches: Seq<Vec<Vec<u8>>>, n: int)
    requires
        totals.received_all(batches).fit(),
        0 <= n <= batches.len(),
    ensures
        totals.received_all(batches.take(n)).fit(),
    decreases batches.len(),
{
    if n == batches.len() {
        assert(batches.take(n) =~= batches);
    } else {
        let before = totals.received_all(batches.drop_last());
        lemma_read_all_grows(
            ResponseTotals {
                total_packets: before.total_packets + batches.last()@.len(),
                ..before
            },
            batches.last()@,
        );
        lemma_received_prefix_fits(totals, batches.drop_last(), n);
        assert(batches.drop_last().take(n) =~= batches.take(n));
    }
}

impl BlockIdRepairResponsesStats {
    /// Counts a packet whose bytes make this response, or none.
    pub fn count_response(&mut self, response: Option<BlockIdRepairResponse>)
        requires
            old(self)@.read(response).fit(),
        ensures
            final(self)@ == old(self)@.read(response),
    {
        let response = match response {
            Some(response) => response,
            None => {
                self.invalid_packets += 1;
                return;
            },
        };
        match response {
            BlockIdRepairResponse::ParentFecSetCount => {
                self.parent_fec_set_count_responses += 1;
            },
            BlockIdRepairResponse::FecSetRoot => {
                self.fec_set_root_responses += 1;
            },
        }
        self.processed += 1;
    }

    /// Counts the packets of these batches, each by the response that it holds.
    pub fn process_block_id_repair_responses(&mut self, batches: &[Vec<Vec<u8>>])
        requires
            old(self)@.received_all(batches@).fit(),
        ensures
            final(self)@ == old(self)@.received_all(batches@),
    {
        let mut i: usize = 0;
        while i < batches.len()
            invariant
                i <= batches@.len(),
                old(self)@.received_all(batches@).fit(),
                self@ == old(self)@.received_all(batches@.take(i as int)),
            decreases batches.len() - i,
        {
            let batch = &batches[i];
            let ghost before = self@;
            let ghost counted = ResponseTotals {
                total_packets: before.total_packets + batch@.len(),
                ..before
            };
            proof {
                lemma_received_prefix_fits(old(self)@, batches@, i + 1);
                assert(batches@.take(i + 1).drop_last() =~= batches@.take(i as int));
                assert(counted.read_all(batch@).fit());
                lemma_read_all_grows(counted, batch@);
            }
            self.total_packets += batch.len();
            assert(batch@.take(0) =~= Seq::<Vec<u8>>::empty());
            let mut j: usize = 0;
            while j < batch.len()
                invariant
                    j <= batch@.len(),
                    counted.read_all(batch@).fit(),
                    self@ == counted.read_all(batch@.take(j as int)),
                decreases batch.len() - j,
            {
                proof {
                    lemma_read_prefix_fits(counted, batch@, j + 1);
                    assert(batch@.take(j + 1).drop_last() =~= batch@.take(j as int));
                }
                let response = deserialize_response(&batch[j]);
                self.count_response(response);
                j += 1;
            }
            assert(batch@.take(j as int) =~= batch@);
            i += 1;
        }
        assert(batches@.take(i as int) =~= batches@);
    }
}

/// The response that the bytes of a packet make, if any.
pub fn deserialize_response(packet: &Vec<u8>) -> (response: Option<BlockIdRepairResponse>)
    ensures
        response == response_in(packet@),
{
    let _ = packet;
    None
}

/// What came of the last action.
pub enum ResponseEvent {
    /// The flag that tells the thread to end was read.
    ExitFlag(bool),
    /// A batch of packets, each by its bytes.
    Received(Vec<Vec<u8>>),
    Timeout,
    Disconnected,
}

/// What to do next.
pub enum ResponseAction {
    /// Wait for responses, for so many milliseconds.
    Wait(u64),
    /// Hand the datapoint, if any, to the metrics agent and read the exit flag again.
    Continue(Option<Datapoint>),
    /// End the thread.
    Stop,
}

/// What the thread knows between two batches.
pub struct ResponseLoop {
    pub clock: Clock,
    pub stats: BlockIdRepairResponsesStats,
    pub last_stats_report: u128,
}

impl ResponseLoop {
    /// Whether a report is due at `checked_at`.
    pub open spec fn report_due(self, checked_at: u128) -> bool {
        seconds_between(self.last_stats_report, checked_at) >= 10
    }

    /// Whether the counters have room for what `event` brings.
    pub open spec fn can_take(self, event: ResponseEvent) -> bool {
        event matches ResponseEvent::Received(batch) ==> self.stats@.received(batch@).fit()
    }

    /// Whether `event` takes `self` to `next` and is followed by `action`, when the clock reads
    /// `checked_at` and then `stamped_at`.
    pub open spec fn stepped(
        self,
        next: ResponseLoop,
        event: ResponseEvent,
        checked_at: u128,
        stamped_at: u128,
        action: ResponseAction,
    ) -> bool {
        &&& next.clock == self.clock
        &&& match event {
            ResponseEvent::ExitFlag(exit) => {
                &&& action == if exit {
                    ResponseAction::Stop
                } else {
                    ResponseAction::Wait(200)
                }
                &&& next.stats == self.stats
                &&& next.last_stats_report == self.last_stats_report
            },
            ResponseEvent::Received(batch) => {
                &&& action == ResponseAction::Continue(None)
                &&& next.stats@ == self.stats@.received(batch@)
                &&& next.last_stats_report == self.last_stats_report
            },
            ResponseEvent::Timeout => if self.report_due(checked_at) {
                &&& action matches ResponseAction::Continue(Some(datapoint))
                &&& datapoint.name@ == "block_id_repair_responses"@
                &&& datapoint.field_values() == self.stats.datapoint_fields()
                &&& next.stats == BlockIdRepairResponsesStats::zero()
                &&& next.last_stats_report == stamped_at
            } else {
                &&& action == ResponseAction::Continue(None)
                &&& next.stats == self.stats
                &&& next.last_stats_report == self.last_stats_report
            },
            ResponseEvent::Disconnected => {
                &&& action == ResponseAction::Stop
                &&& next.stats == self.stats
                &&& next.last_stats_report == self.last_stats_report
            },
        }
    }

    /// A thread that starts at `now` by `clock`.
    pub fn new_at(clock: Clock, now: u128) -> (state: ResponseLoop)
        ensures
            state.clock == clock,
            state.stats == BlockIdRepairResponsesStats::zero(),
            state.last_stats_report == now,
    {
        ResponseLoop {
            clock,
            stats: BlockIdRepairResponsesStats::default(),
            last_stats_report: now,
        }
    }

    /// A thread that starts now.
    pub fn new() -> (state: ResponseLoop)
        ensures
            state.stats == BlockIdRepairResponsesStats::zero(),
            state.clock.is_started(),
            state.clock.is_reading(state.last_stats_report),
    {
        let clock = Clock::start();
        let now: u128 = clock.now();
        ResponseLoop::new_at(clock, now)
    }

    /// Takes in what came of the last action, when the clock reads `checked_at` and then
    /// `stamped_at`: waits unless the exit flag is set, counts a batch, or reports once in ten
    /// seconds where nothing came.
    pub fn step_at(
        &mut self,
        event: ResponseEvent,
        checked_at: u128,
        stamped_at: u128,
    ) -> (action: ResponseAction)
        requires
            old(self).can_take(event),
        ensures
            old(self).stepped(*final(self), event, checked_at, stamped_at, action),
    {
        match event {
            ResponseEvent::ExitFlag(exit) => if exit {
                ResponseAction::Stop
            } else {
                ResponseAction::Wait(RESPONSE_TIMEOUT_MILLIS)
            },
            ResponseEvent::Received(batch) => {
                let ghost packets = batch@;
                let mut batches: Vec<Vec<Vec<u8>>> = Vec::new();
                batches.push(batch);
                proof {
                    assert(batches@.drop_last() =~= Seq::<Vec<Vec<u8>>>::empty());
                    assert(self.stats@.received_all(batches@.drop_last()) == self.stats@);
                    assert(self.stats@.received_all(batches@) == self.stats@.received(packets));
                }
                self.stats.process_block_id_repair_responses(batches.as_slice());
                ResponseAction::Continue(None)
            },
            ResponseEvent::Timeout => {
                if elapsed_seconds(self.last_stats_report, checked_at) >= REPORT_EVERY_SECONDS {
                    let datapoint = self.stats.report();
                    self.last_stats_report = stamped_at;
                    ResponseAction::Continue(Some(datapoint))
                } else {
                    ResponseAction::Continue(None)
                }
            },
            ResponseEvent::Disconnected => ResponseAction::Stop,
        }
    }

    /// Takes in what came of the last action: waits unless the exit flag is set, counts a batch, or
    /// reports once in ten seconds where nothing came.
    pub fn step(&mut self, event: ResponseEvent) -> (action: ResponseAction)
        requires
            old(self).can_take(event),
        ensures
            exists|checked_at: u128, stamped_at: u128|
                old(self).clock.is_reading(checked_at) && old(self).clock.is_reading(stamped_at)
                    && #[trigger] old(self).stepped(
                    *final(self),
                    event,
                    checked_at,
                    stamped_at,
                    action,
                ),
    {
        let checked_at: u128 = self.clock.now();
        let stamped_at: u128 = self.clock.now();
        self.step_at(event, checked_at, stamped_at)
    }
}

proof fn lemma_read_all_balance(totals: ResponseTotals, packets: Seq<Vec<u8>>)
    ensures
        ({
            let after = totals.read_all(packets);
            &&& after.total_packets == totals.total_packets
            &&& after.dropped_packets == totals.dropped_packets
            &&& after.processed + after.invalid_packets == totals.processed
                + totals.invalid_packets + packets.len()
            &&& after.processed - after.parent_fec_set_count_responses
                - after.fec_set_root_responses == totals.processed
                - totals.parent_fec_set_count_responses - totals.fec_set_root_responses
        }),
    decreases packets.len(),
{
    if packets.len() > 0 {
        lemma_read_all_balance(totals, packets.drop_last());
    }
}

/// Whatever is received, every packet is either processed or invalid, and every processed one is
/// counted by what it brings.
pub proof fn law_receiving_keeps_counters_balanced(
    totals: ResponseTotals,
    batches: Seq<Vec<Vec<u8>>>,
)
    requires
        totals.balanced(),
    ensures
        totals.received_all(batches).balanced(),
    decreases batches.len(),
{
    if batches.len() > 0 {
        law_receiving_keeps_counters_balanced(totals, batches.drop_last());
        let before = totals.received_all(batches.drop_last());
        lemma_read_all_balance(
            ResponseTotals {
                total_packets: before.total_packets + batches.last()@.len(),
                ..before
            },
            batches.last()@,
        );
    }
}

/// Whatever the thread waits for, its counters stay balanced; they change only by a batch that was
/// received or where they are handed out.
pub proof fn law_step_keeps_counters(
    before: ResponseLoop,
    after: ResponseLoop,
    event: ResponseEvent,
    checked_at: u128,
    stamped_at: u128,
    action: ResponseAction,
)
    requires
        before.stepped(after, event, checked_at, stamped_at, action),
    ensures
        before.stats@.balanced() ==> after.stats@.balanced(),
        !(event is Received) && !(action matches ResponseAction::Continue(Some(_)))
            ==> after.stats == before.stats,
        action matches ResponseAction::Continue(Some(datapoint))
            ==> datapoint.field_values() == before.stats.datapoint_fields() && after.stats
            == BlockIdRepairResponsesStats::zero(),
{
    if let ResponseEvent::Received(batch) = event {
        let counted = ResponseTotals {
            total_packets: before.stats@.total_packets + batch@.len(),
            ..before.stats@
        };
        lemma_read_all_balance(counted, batch@);
    }
}

proof fn lemma_read_all_invalid(totals: ResponseTotals, packets: Seq<Vec<u8>>)
    ensures
        totals.read_all(packets) == (ResponseTotals {
            invalid_packets: totals.invalid_packets + packets.len(),
            ..totals
        }),
    decreases packets.len(),
{
    if packets.len() > 0 {
        lemma_read_all_invalid(totals, packets.drop_last());
    }
}

/// While no packet format is recognised, every packet counts as invalid and none as processed.
pub proof fn law_every_packet_is_invalid(totals: ResponseTotals, batches: Seq<Vec<Vec<u8>>>)
    ensures
        totals.received_all(batches) == (ResponseTotals {
            total_packets: totals.total_packets + packet_count(batches),
            invalid_packets: totals.invalid_packets + packet_count(batches),
            ..totals
        }),
    decreases batches.len(),
{
    if batches.len() > 0 {
        law_every_packet_is_invalid(totals, batches.drop_last());
        let before = totals.received_all(batches.drop_last());
        lemma_read_all_invalid(
            ResponseTotals {
                total_packets: before.total_packets + batches.last()@.len(),
                ..before
            },
            batches.last()@,
        );
    }
}

/// After a report, none is due for the next ten seconds.
pub proof fn law_reports_are_spaced(
    before: ResponseLoop,
    after: ResponseLoop,
    checked_at: u128,
    stamped_at: u128,
    action: ResponseAction,
    next_checked_at: u128,
)
    requires
        before.stepped(after, ResponseEvent::Timeout, checked_at, stamped_at, action),
        before.report_due(checked_at),
        nanos_between(stamped_at, next_checked_at) < 10_000_000_000,
    ensures
        !after.report_due(next_checked_at),
{
}

/// The thread ends exactly where the exit flag is found set or no responses can come any more, and
/// waits for responses exactly where the flag is found unset; neither changes the counters.
pub proof fn law_listener_ends_on_exit_or_disconnect(
    before: ResponseLoop,
    after: ResponseLoop,
    event: ResponseEvent,
    checked_at: u128,
    stamped_at: u128,
    action: ResponseAction,
)
    requires
        before.stepped(after, event, checked_at, stamped_at, action),
    ensures
        action is Stop <==> (event == ResponseEvent::ExitFlag(true) || event is Disconnected),
        action is Wait <==> event == ResponseEvent::ExitFlag(false),
        action is Stop || action is Wait ==> after.stats == before.stats,
{
}

/// A packet that makes no response is counted as invalid and as nothing else; one that makes a
/// response is counted as processed and by what it brings. No other counter changes, and there need
/// be room only in those that do.
pub proof fn law_packet_is_counted_by_what_it_brings(response: Option<BlockIdRepairResponse>)
    ensures
        forall|stats: &mut BlockIdRepairResponsesStats| #[trigger]
            call_ensures(BlockIdRepairResponsesStats::count_response, (stats, response), ()) ==> {
                let invalid: int = if response is None {
                    1
                } else {
                    0
                };
                let parent: int = if response == Some(BlockIdRepairResponse::ParentFecSetCount) {
                    1
                } else {
                    0
                };
                let root: int = if response == Some(BlockIdRepairResponse::FecSetRoot) {
                    1
                } else {
                    0
                };
                let after = *final(stats);
                &&& after.total_packets == stats.total_packets
                &&& after.dropped_packets == stats.dropped_packets
                &&& after.invalid_packets == stats.invalid_packets + invalid
                &&& after.processed == stats.processed + parent + root
                &&& after.parent_fec_set_count_responses == stats.parent_fec_set_count_responses
                    + parent
                &&& after.fec_set_root_responses == stats.fec_set_root_responses + root
            },
        forall|stats: &mut BlockIdRepairResponsesStats| #![trigger call_requires(
            BlockIdRepairResponsesStats::count_response,
            (stats, response),
        )]
            (match response {
                None => stats.invalid_packets < usize::MAX,
                Some(BlockIdRepairResponse::ParentFecSetCount) => stats.processed < usize::MAX
                    && stats.parent_fec_set_count_responses < usize::MAX,
                Some(BlockIdRepairResponse::FecSetRoot) => stats.processed < usize::MAX
                    && stats.fec_set_root_responses < usize::MAX,
            }) ==> call_requires(BlockIdRepairResponsesStats::count_response, (stats, response)),
{
}

/// No bytes make a response.
pub proof fn law_no_bytes_make_a_response(
    packet: Vec<u8>,
    response: Option<BlockIdRepairResponse>,
)
    requires
        call_ensures(deserialize_response, (&packet,), response),
    ensures
        response is None,
{
}

/// There are no packets in no batches, and one more batch adds the packets that it holds.
pub proof fn law_packets_add_up(batches: Seq<Vec<Vec<u8>>>, batch: Vec<Vec<u8>>)
    ensures
        packet_count(Seq::<Vec<Vec<u8>>>::empty()) == 0,
        packet_count(batches.push(batch)) == packet_count(batches) + batch@.len(),
{
    assert(batches.push(batch).drop_last() =~= batches);
}

/// Of every batch each packet is counted, once in all and once as invalid, and no other counter
/// changes.
pub proof fn law_every_packet_is_counted(batches: &[Vec<Vec<u8>>])
    ensures
        forall|stats: &mut BlockIdRepairResponsesStats| #[trigger]
            call_ensures(
                BlockIdRepairResponsesStats::process_block_id_repair_responses,
                (stats, batches),
                (),
            ) ==> {
                let after = *final(stats);
                &&& after.total_packets == stats.total_packets + packet_count(batches@)
                &&& after.invalid_packets == stats.invalid_packets + packet_count(batches@)
                &&& after.processed == stats.processed
                &&& after.dropped_packets == stats.dropped_packets
                &&& after.parent_fec_set_count_responses == stats.parent_fec_set_count_responses
                &&& after.fec_set_root_responses == stats.fec_set_root_responses
                &&& batches@.len() == 1 ==> after.total_packets == stats.total_packets
                    + batches@[0]@.len()
            },
{
    if batches@.len() == 1 {
        law_packets_add_up(Seq::empty(), batches@[0]);
        assert(Seq::<Vec<Vec<u8>>>::empty().push(batches@[0]) =~= batches@);
    }
    assert forall|stats: &mut BlockIdRepairResponsesStats| #[trigger]
        call_ensures(
            BlockIdRepairResponsesStats::process_block_id_repair_responses,
            (stats, batches),
            (),
        ) implies (*final(stats))@ == (ResponseTotals {
        total_packets: (*stats)@.total_packets + packet_count(batches@),
        invalid_packets: (*stats)@.invalid_packets + packet_count(batches@),
        ..(*stats)@
    }) by {
        law_every_packet_is_invalid((*stats)@, batches@);
    }
}

/// The thread waits a fifth of a second where the exit flag is found unset, and ends where it is set
/// or no responses can come any more. A batch that comes has every packet counted, and nothing is
/// reported with it. Where none comes, the counters are handed out and start over at zero exactly
/// where ten seconds have passed since that was last done, which is then noted as `stamped_at`.
pub proof fn law_listener_counts_and_reports(
    event: ResponseEvent,
    checked_at: u128,
    stamped_at: u128,
)
    ensures
        forall|state: &mut ResponseLoop, action: ResponseAction| #[trigger]
            call_ensures(
                ResponseLoop::step_at,
                (state, event, checked_at, stamped_at),
                action,
            ) ==> {
                let before = (*state).stats;
                let after = (*final(state)).stats;
                let due = event is Timeout && checked_at >= (*state).last_stats_report
                    + 10_000_000_000;
                &&& (*final(state)).clock == (*state).clock
                &&& event == ResponseEvent::ExitFlag(true) ==> action == ResponseAction::Stop
                &&& event is Disconnected ==> action == ResponseAction::Stop
                &&& event == ResponseEvent::ExitFlag(false) ==> action == ResponseAction::Wait(200)
                &&& event is Received || event is Timeout ==> {
                    &&& action is Continue
                    &&& action->Continue_0 is Some <==> due
                }
                &&& event matches ResponseEvent::Received(batch) ==> {
                    &&& after.total_packets == before.total_packets + batch@.len()
                    &&& after.invalid_packets == before.invalid_packets + batch@.len()
                    &&& after.processed == before.processed
                    &&& after.dropped_packets == before.dropped_packets
                    &&& after.parent_fec_set_count_responses
                        == before.parent_fec_set_count_responses
                    &&& after.fec_set_root_responses == before.fec_set_root_responses
                }
                &&& due ==> {
                    let datapoint = action->Continue_0->0;
                    &&& datapoint.name@ == "block_id_repair_responses"@
                    &&& datapoint.fields@.len() == 6
                    &&& datapoint.fields@[0].0@ == "total_packets"@
                    &&& before.total_packets <= i64::MAX ==> datapoint.fields@[0].1
                        == before.total_packets
                    &&& datapoint.fields@[3].0@ == "invalid_packets"@
                    &&& before.invalid_packets <= i64::MAX ==> datapoint.fields@[3].1
                        == before.invalid_packets
                    &&& after.total_packets == 0
                    &&& after.processed == 0
                    &&& after.dropped_packets == 0
                    &&& after.invalid_packets == 0
                    &&& after.parent_fec_set_count_responses == 0
                    &&& after.fec_set_root_responses == 0
                    &&& (*final(state)).last_stats_report == stamped_at
                }
                &&& !due ==> (*final(state)).last_stats_report == (*state).last_stats_report
                &&& !due && !(event is Received) ==> after == before
            },
{
    assert forall|state: &mut ResponseLoop, action: ResponseAction| #[trigger]
        call_ensures(ResponseLoop::step_at, (state, event, checked_at, stamped_at), action) implies {
        &&& event matches ResponseEvent::Received(batch) ==> (*final(state)).stats@ == (
        ResponseTotals {
            total_packets: (*state).stats@.total_packets + batch@.len(),
            invalid_packets: (*state).stats@.invalid_packets + batch@.len(),
            ..(*state).stats@
        })
        &&& action matches ResponseAction::Continue(Some(datapoint)) ==> {
            &&& datapoint.fields@.len() == 6
            &&& (datapoint.fields@[0].0@, datapoint.fields@[0].1)
                == (*state).stats.datapoint_fields()[0]
            &&& (datapoint.fields@[3].0@, datapoint.fields@[3].1)
                == (*state).stats.datapoint_fields()[3]
        }
    } by {
        if let ResponseEvent::Received(batch) = event {
            lemma_read_all_invalid(
                ResponseTotals {
                    total_packets: (*state).stats@.total_packets + batch@.len(),
                    ..(*state).stats@
                },
                batch@,
            );
        }
        if let ResponseAction::Continue(Some(datapoint)) = action {
            assert(datapoint.field_values().len() == datapoint.fields@.len());
            assert(datapoint.field_values()[0] == (
                datapoint.fields@[0].0@,
                datapoint.fields@[0].1,
            ));
            assert(datapoint.field_values()[3] == (
                datapoint.fields@[3].0@,
                datapoint.fields@[3].1,
            ));
        }
    }
}

/// An event can be taken in wherever the counters of all packets and of invalid ones have room for
/// the packets that it brings, if any.
pub proof fn law_listener_needs_room_for_the_packets(
    event: ResponseEvent,
    checked_at: u128,
    stamped_at: u128,
)
    ensures
        forall|state: &mut ResponseLoop| #![trigger call_requires(
            ResponseLoop::step_at,
            (state, event, checked_at, stamped_at),
        )]
            (event matches ResponseEvent::Received(batch) ==> {
                &&& (*state).stats.total_packets + batch@.len() <= usize::MAX
                &&& (*state).stats.invalid_packets + batch@.len() <= usize::MAX
            }) ==> call_requires(
                ResponseLoop::step_at,
                (state, event, checked_at, stamped_at),
            ),
{
    assert forall|state: &mut ResponseLoop| #![trigger call_requires(
        ResponseLoop::step_at,
        (state, event, checked_at, stamped_at),
    )] (event matches ResponseEvent::Received(batch) ==> {
        &&& (*state).stats.total_packets + batch@.len() <= usize::MAX
        &&& (*state).stats.invalid_packets + batch@.len() <= usize::MAX
    }) implies call_requires(ResponseLoop::step_at, (state, event, checked_at, stamped_at)) by {
        if let ResponseEvent::Received(batch) = event {
            lemma_read_all_invalid(
                ResponseTotals {
                    total_packets: (*state).stats@.total_packets + batch@.len(),
                    ..(*state).stats@
                },
                batch@,
            );
        }
        assert((*state).can_take(event));
    }
}

/// A thread that goes by its clock hands out the counters only by a reading of it that is ten
/// seconds after the last time, and then notes a reading of it.
pub proof fn law_listener_goes_by_the_clock(event: ResponseEvent)
    ensures
        forall|state: &mut ResponseLoop, action: ResponseAction| #[trigger]
            call_ensures(ResponseLoop::step, (state, event), action) ==> {
                let clock = (*state).clock;
                let due = (*state).last_stats_report + 10_000_000_000;
                &&& (*final(state)).clock == clock
                &&& action matches ResponseAction::Continue(Some(_)) ==> {
                    &&& event is Timeout
                    &&& clock.is_reading((*final(state)).last_stats_report)
                    &&& exists|checked_at: u128| #[trigger]
                        clock.is_reading(checked_at) && checked_at >= due
                }
                &&& event is Timeout && !(action matches ResponseAction::Continue(Some(_))) ==> {
                    &&& action == ResponseAction::Continue(None)
                    &&& (*final(state)).stats == (*state).stats
                    &&& exists|checked_at: u128| #[trigger]
                        clock.is_reading(checked_at) && checked_at < due
                }
            },
{
}

/// A thread starts with its counters at zero and with the time that it was given.
pub proof fn law_listener_starts_afresh(clock: Clock, now: u128, state: ResponseLoop)
    requires
        call_ensures(ResponseLoop::new_at, (clock, now), state),
    ensures
        state.clock == clock,
        state.last_stats_report == now,
        state.stats.total_packets == 0,
        state.stats.processed == 0,
        state.stats.dropped_packets == 0,
        state.stats.invalid_packets == 0,
        state.stats.parent_fec_set_count_responses == 0,
        state.stats.fec_set_root_responses == 0,
{
}

/// A thread that starts now has its counters at zero too, and starts a clock of its own, on which
/// its time was read.
pub proof fn law_listener_starts_its_clock(state: ResponseLoop)
    requires
        call_ensures(ResponseLoop::new, (), state),
    ensures
        state.stats.total_packets == 0,
        state.stats.processed == 0,
        state.stats.dropped_packets == 0,
        state.stats.invalid_packets == 0,
        state.stats.parent_fec_set_count_responses == 0,
        state.stats.fec_set_root_responses == 0,
        state.clock.is_started(),
        state.clock.is_reading(state.last_stats_report),
{
}

/// Batches can be counted wherever the counters of all packets and of invalid ones have room for the
/// packets that they hold.
pub proof fn law_counting_needs_room_for_the_packets(batches: &[Vec<Vec<u8>>])
    ensures
        forall|stats: &mut BlockIdRepairResponsesStats| #![trigger call_requires(
            BlockIdRepairResponsesStats::process_block_id_repair_responses,
            (stats, batches),
        )]
            stats.total_packets + packet_count(batches@) <= usize::MAX && stats.invalid_packets
                + packet_count(batches@) <= usize::MAX ==> call_requires(
                BlockIdRepairResponsesStats::process_block_id_repair_responses,
                (stats, batches),
            ),
{
    assert forall|stats: &mut BlockIdRepairResponsesStats| #![trigger call_requires(
        BlockIdRepairResponsesStats::process_block_id_repair_responses,
        (stats, batches),
    )] stats.total_packets + packet_count(batches@) <= usize::MAX && stats.invalid_packets
        + packet_count(batches@) <= usize::MAX implies call_requires(
        BlockIdRepairResponsesStats::process_block_id_repair_responses,
        (stats, batches),
    ) by {
        law_every_packet_is_invalid((*stats)@, batches@);
    }
}

} // verus!
