//! Requests for, and responses to, the repair of a block by its id, and how many there were.
use crate::clock::{elapsed_seconds, seconds_between, Clock};
use crate::datapoint::Datapoint;
use solana_clock::Slot;
use vstd::prelude::*;

verus! {

/// How many requests are to be made in a second at most.
pub const MAX_BLOCK_ID_REQUESTS_PER_SECOND: usize = 10;

/// What a request asks for.
#[derive(Debug, Clone, Copy, PartialEq, Eq, Structural)]
pub enum BlockIdRepairType {
    /// The parent of the block and the number of its FEC sets.
    ParentAndFecSetCount,
    /// The Merkle root of one FEC set.
    FecSetRoot,
}

/// What a response brings.
#[derive(Debug, Clone, Copy, PartialEq, Eq, Structural)]
pub enum BlockIdRepairResponse {
    /// The parent of the block and the number of its FEC sets.
    ParentFecSetCount,
    /// The Merkle root of one FEC set.
    FecSetRoot,
}

/// A request to repair the block `block_id` of `slot`.
#[derive(Debug, Clone, Copy)]
pub struct BlockIdRepairRequest {
    pub slot: Slot,
    pub block_id: [u8; 32],
    pub repair_type: BlockIdRepairType,
}

/// What the responses so far amount to.
pub struct BlockIdRepairResponsesStats {
    pub total_packets: usize,
    pub processed: usize,
    pub dropped_packets: usize,
    pub invalid_packets: usize,
    pub parent_fec_set_count_responses: usize,
    pub fec_set_root_responses: usize,
}

impl BlockIdRepairResponsesStats {
    /// No responses yet.
    pub open spec fn zero() -> BlockIdRepairResponsesStats {
        BlockIdRepairResponsesStats {
            total_packets: 0,
            processed: 0,
            dropped_packets: 0,
            invalid_packets: 0,
            parent_fec_set_count_responses: 0,
            fec_set_root_responses: 0,
        }
    }

    /// The fields of the datapoint that reports these counters.
    pub open spec fn datapoint_fields(self) -> Seq<(Seq<char>, i64)> {
        seq![
            ("total_packets"@, self.total_packets as i64),
            ("processed"@, self.processed as i64),
            ("dropped_packets"@, self.dropped_packets as i64),
            ("invalid_packets"@, self.invalid_packets as i64),
            ("parent_fec_set_count_responses"@, self.parent_fec_set_count_responses as i64),
            ("fec_set_root_responses"@, self.fec_set_root_responses as i64),
        ]
    }

    /// Hands the counters out for the metrics agent and starts over at zero.
    pub fn report(&mut self) -> (datapoint: Datapoint)
        ensures
            datapoint.name@ == "block_id_repair_responses"@,
            datapoint.field_values() == old(self).datapoint_fields(),
            *final(self) == BlockIdRepairResponsesStats::zero(),
    {
        let fields: Vec<(&'static str, i64)> = vec![
            ("total_packets", self.total_packets as i64),
            ("processed", self.processed as i64),
            ("dropped_packets", self.dropped_packets as i64),
            ("invalid_packets", self.invalid_packets as i64),
            ("parent_fec_set_count_responses", self.parent_fec_set_count_responses as i64),
            ("fec_set_root_responses", self.fec_set_root_responses as i64),
        ];
        let datapoint = Datapoint { name: "block_id_repair_responses", fields };
        assert(datapoint.field_values() =~= self.datapoint_fields());
        *self = BlockIdRepairResponsesStats::default();
        datapoint
    }
}

impl Default for BlockIdRepairResponsesStats {
    fn default() -> (stats: BlockIdRepairResponsesStats)
        ensures
            stats == BlockIdRepairResponsesStats::zero(),
    {
        BlockIdRepairResponsesStats {
            total_packets: 0,
            processed: 0,
            dropped_packets: 0,
            invalid_packets: 0,
            parent_fec_set_count_responses: 0,
            fec_set_root_responses: 0,
        }
    }
}

/// What the requests since the last report amount to.
pub struct BlockIdRepairRequestsStats {
    pub total_requests: usize,
    pub parent_fec_set_count_requests: usize,
    pub fec_set_root_requests: usize,
    /// When the counters last started at zero.
    pub last_report: u128,
}

impl BlockIdRepairRequestsStats {
    /// No requests since `now`.
    pub open spec fn zero(now: u128) -> BlockIdRepairRequestsStats {
        BlockIdRepairRequestsStats {
            total_requests: 0,
            parent_fec_set_count_requests: 0,
            fec_set_root_requests: 0,
            last_report: now,
        }
    }

    /// The fields of the datapoint that reports these counters.
    pub open spec fn datapoint_fields(self) -> Seq<(Seq<char>, i64)> {
        seq![
            ("total_requests"@, self.total_requests as i64),
            ("parent_fec_set_count_requests"@, self.parent_fec_set_count_requests as i64),
            ("fec_set_root_requests"@, self.fec_set_root_requests as i64),
        ]
    }

    /// Whether there is something to report at `checked_at`: some request, and more than two
    /// whole seconds since the last report.
    pub open spec fn report_due(self, checked_at: u128) -> bool {
        seconds_between(self.last_report, checked_at) > 2 && self.total_requests > 0
    }

    /// What a report leaves of `self` that reads `checked_at`, and then `stamped_at`, on the clock.
    pub open spec fn after_report(
        self,
        checked_at: u128,
        stamped_at: u128,
    ) -> BlockIdRepairRequestsStats {
        if self.report_due(checked_at) {
            BlockIdRepairRequestsStats::zero(stamped_at)
        } else {
            self
        }
    }

    /// Whether `datapoint` is what a report that reads `checked_at` on the clock hands out.
    pub open spec fn reported(self, checked_at: u128, datapoint: Option<Datapoint>) -> bool {
        &&& datapoint is Some <==> self.report_due(checked_at)
        &&& datapoint is Some ==> {
            &&& datapoint->0.name@ == "block_id_repair_requests"@
            &&& datapoint->0.field_values() == self.datapoint_fields()
        }
    }

    /// No requests since `now`.
    pub fn default_at(now: u128) -> (stats: BlockIdRepairRequestsStats)
        ensures
            stats == BlockIdRepairRequestsStats::zero(now),
    {
        BlockIdRepairRequestsStats {
            total_requests: 0,
            parent_fec_set_count_requests: 0,
            fec_set_root_requests: 0,
            last_report: now,
        }
    }

    /// Where a report is due at `checked_at`, hands the counters out for the metrics agent and
    /// starts over at zero, from `stamped_at` on.
    pub fn report_at(&mut self, checked_at: u128, stamped_at: u128) -> (datapoint: Option<Datapoint>)
        ensures
            old(self).reported(checked_at, datapoint),
            *final(self) == old(self).after_report(checked_at, stamped_at),
    {
        if elapsed_seconds(self.last_report, checked_at) > 2 && self.total_requests > 0 {
            let fields: Vec<(&'static str, i64)> = vec![
                ("total_requests", self.total_requests as i64),
                ("parent_fec_set_count_requests", self.parent_fec_set_count_requests as i64),
                ("fec_set_root_requests", self.fec_set_root_requests as i64),
            ];
            let datapoint = Datapoint { name: "block_id_repair_requests", fields };
            assert(datapoint.field_values() =~= self.datapoint_fields());
            *self = BlockIdRepairRequestsStats::default_at(stamped_at);
            Some(datapoint)
        } else {
            None
        }
    }

    /// Where a report is due by `clock`, hands the counters out for the metrics agent and starts
    /// over at zero.
    pub fn report(&mut self, clock: &Clock) -> (datapoint: Option<Datapoint>)
        ensures
            exists|checked_at: u128, stamped_at: u128| #![auto]
                clock.is_reading(checked_at) && clock.is_reading(stamped_at)
                && old(self).reported(checked_at, datapoint)
                && *final(self) == old(self).after_report(checked_at, stamped_at),
    {
        let checked_at: u128 = clock.now();
        let stamped_at: u128 = clock.now();
        self.report_at(checked_at, stamped_at)
    }
}

/// A report of responses hands out every counter under its own name, in this order, as the number
/// that it holds, and leaves all of them at zero.
pub proof fn law_response_report_hands_out_every_counter()
    ensures
        forall|stats: &mut BlockIdRepairResponsesStats, datapoint: Datapoint| #[trigger]
            call_ensures(BlockIdRepairResponsesStats::report, (stats,), datapoint) ==> {
                &&& datapoint.name@ == "block_id_repair_responses"@
                &&& datapoint.fields@.len() == 6
                &&& datapoint.fields@[0].0@ == "total_packets"@
                &&& stats.total_packets <= i64::MAX
                    ==> datapoint.fields@[0].1 == stats.total_packets
                &&& datapoint.fields@[1].0@ == "processed"@
                &&& stats.processed <= i64::MAX ==> datapoint.fields@[1].1 == stats.processed
                &&& datapoint.fields@[2].0@ == "dropped_packets"@
                &&& stats.dropped_packets <= i64::MAX
                    ==> datapoint.fields@[2].1 == stats.dropped_packets
                &&& datapoint.fields@[3].0@ == "invalid_packets"@
                &&& stats.invalid_packets <= i64::MAX
                    ==> datapoint.fields@[3].1 == stats.invalid_packets
                &&& datapoint.fields@[4].0@ == "parent_fec_set_count_responses"@
                &&& stats.parent_fec_set_count_responses <= i64::MAX
                    ==> datapoint.fields@[4].1 == stats.parent_fec_set_count_responses
                &&& datapoint.fields@[5].0@ == "fec_set_root_responses"@
                &&& stats.fec_set_root_responses <= i64::MAX
                    ==> datapoint.fields@[5].1 == stats.fec_set_root_responses
                &&& final(stats).total_packets == 0
                &&& final(stats).processed == 0
                &&& final(stats).dropped_packets == 0
                &&& final(stats).invalid_packets == 0
                &&& final(stats).parent_fec_set_count_responses == 0
                &&& final(stats).fec_set_root_responses == 0
            },
{
    assert forall|stats: &mut BlockIdRepairResponsesStats, datapoint: Datapoint| #[trigger]
        call_ensures(BlockIdRepairResponsesStats::report, (stats,), datapoint) implies {
        &&& datapoint.fields@.len() == 6
        &&& forall|i: int|
            0 <= i < 6 ==> (datapoint.fields@[i].0@, #[trigger] datapoint.fields@[i].1)
                == (*stats).datapoint_fields()[i]
    } by {
        lemma_fields(datapoint);
    }
}

/// A report of requests is due exactly where there was some request and three seconds have passed
/// since the last report. It then hands out every counter under its own name, in this order, as the
/// number that it holds, and the counters start over at zero from `stamped_at` on. Otherwise it
/// hands out nothing and changes nothing.
pub proof fn law_request_report_is_due_after_three_seconds(checked_at: u128, stamped_at: u128)
    ensures
        forall|stats: &mut BlockIdRepairRequestsStats, reported: Option<Datapoint>| #[trigger]
            call_ensures(
                BlockIdRepairRequestsStats::report_at,
                (stats, checked_at, stamped_at),
                reported,
            ) ==> {
                &&& reported is Some <==> stats.total_requests > 0 && checked_at
                    >= stats.last_report + 3_000_000_000
                &&& reported matches Some(datapoint) ==> {
                    &&& datapoint.name@ == "block_id_repair_requests"@
                    &&& datapoint.fields@.len() == 3
                    &&& datapoint.fields@[0].0@ == "total_requests"@
                    &&& stats.total_requests <= i64::MAX
                        ==> datapoint.fields@[0].1 == stats.total_requests
                    &&& datapoint.fields@[1].0@ == "parent_fec_set_count_requests"@
                    &&& stats.parent_fec_set_count_requests <= i64::MAX
                        ==> datapoint.fields@[1].1 == stats.parent_fec_set_count_requests
                    &&& datapoint.fields@[2].0@ == "fec_set_root_requests"@
                    &&& stats.fec_set_root_requests <= i64::MAX
                        ==> datapoint.fields@[2].1 == stats.fec_set_root_requests
                    &&& final(stats).total_requests == 0
                    &&& final(stats).parent_fec_set_count_requests == 0
                    &&& final(stats).fec_set_root_requests == 0
                    &&& final(stats).last_report == stamped_at
                }
                &&& reported is None ==> *final(stats) == *stats
            },
{
    assert forall|stats: &mut BlockIdRepairRequestsStats, reported: Option<Datapoint>| #[trigger]
        call_ensures(
            BlockIdRepairRequestsStats::report_at,
            (stats, checked_at, stamped_at),
            reported,
        ) implies (reported matches Some(datapoint) ==> {
        &&& datapoint.fields@.len() == 3
        &&& forall|i: int|
            0 <= i < 3 ==> (datapoint.fields@[i].0@, #[trigger] datapoint.fields@[i].1)
                == (*stats).datapoint_fields()[i]
    }) by {
        if let Some(datapoint) = reported {
            lemma_fields(datapoint);
        }
    }
}

/// Where a report goes by a clock, it is due by a reading of that clock, and the counters start over
/// from a reading of that clock.
pub proof fn law_request_report_goes_by_the_clock(clock: Clock)
    ensures
        forall|stats: &mut BlockIdRepairRequestsStats, reported: Option<Datapoint>| #[trigger]
            call_ensures(BlockIdRepairRequestsStats::report, (stats, &clock), reported) ==> {
                &&& reported is Some ==> {
                    &&& stats.total_requests > 0
                    &&& exists|checked_at: u128| #[trigger]
                        clock.is_reading(checked_at) && checked_at >= stats.last_report
                            + 3_000_000_000
                    &&& final(stats).total_requests == 0
                    &&& final(stats).parent_fec_set_count_requests == 0
                    &&& final(stats).fec_set_root_requests == 0
                    &&& clock.is_reading(final(stats).last_report)
                }
                &&& reported is None ==> {
                    &&& *final(stats) == *stats
                    &&& stats.total_requests == 0 || exists|checked_at: u128| #[trigger]
                        clock.is_reading(checked_at) && checked_at < stats.last_report
                            + 3_000_000_000
                }
            },
{
}

/// Counters start at zero, and those of requests at the given time.
pub proof fn law_counters_start_at_zero(
    responses: BlockIdRepairResponsesStats,
    now: u128,
    requests: BlockIdRepairRequestsStats,
)
    requires
        call_ensures(BlockIdRepairResponsesStats::default, (), responses),
        call_ensures(BlockIdRepairRequestsStats::default_at, (now,), requests),
    ensures
        responses.total_packets == 0,
        responses.processed == 0,
        responses.dropped_packets == 0,
        responses.invalid_packets == 0,
        responses.parent_fec_set_count_responses == 0,
        responses.fec_set_root_responses == 0,
        requests.total_requests == 0,
        requests.parent_fec_set_count_requests == 0,
        requests.fec_set_root_requests == 0,
        requests.last_report == now,
{
}

/// The fields of a datapoint are those that it is seen to have.
proof fn lemma_fields(datapoint: Datapoint)
    ensures
        datapoint.field_values().len() == datapoint.fields@.len(),
        forall|i: int|
            0 <= i < datapoint.fields@.len() ==> (
                datapoint.fields@[i].0@,
                #[trigger] datapoint.fields@[i].1,
            ) == datapoint.field_values()[i],
{
}

} // verus!
