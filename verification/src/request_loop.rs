//! The thread that makes block id repair requests: what it does with each request, and when it
//! reports how many there were.
use crate::block_id_repair::{BlockIdRepairRequest, BlockIdRepairRequestsStats, BlockIdRepairType};
use crate::clock::{elapsed_nanos, elapsed_seconds, nanos_between, seconds_between, Clock};
use crate::datapoint::Datapoint;
use crate::request_statuses::{RequestStatuses, RequestTimes};
use vstd::prelude::*;

verus! {

/// For how long a block that was asked for is not asked for again: five seconds, in nanoseconds.
pub const REPEAT_AFTER_NANOS: u128 = 5_000_000_000;

/// How many whole seconds pass at least between two attempts to report.
pub const REPORT_EVERY_SECONDS: u128 = 10;

/// How long the thread waits for a new request, in milliseconds.
pub const REQUEST_TIMEOUT_MILLIS: u64 = 100;

/// What came of an action.
pub enum RequestEvent {
    /// The flag that tells the thread to end was read.
    ExitFlag(bool),
    /// A new request came within the time.
    Received(BlockIdRepairRequest),
    /// No new request came within the time.
    Timeout,
    /// No new request can come any more.
    Disconnected,
    /// There was a request that is to be tried again.
    Retryable(BlockIdRepairRequest),
    /// There was no request that is to be tried again.
    NoRetryable,
    /// No request that is to be tried again can come any more.
    RetryDisconnected,
    /// The request was processed.
    Processed,
    /// The iteration was ended.
    IterationEnded,
}

/// What to do next.
pub enum RequestAction {
    /// Read the flag that tells the thread to end.
    ReadExitFlag,
    /// Wait for a new request, for so many milliseconds.
    Wait(u64),
    /// Process this request.
    Process(BlockIdRepairRequest),
    /// Take one request that is to be tried again, if there is any, without waiting for it.
    PollRetryable,
    /// End the iteration.
    EndIteration,
    /// End the thread.
    Stop,
}

/// The action that follows an event.
pub open spec fn action_after(event: RequestEvent) -> RequestAction {
    match event {
        RequestEvent::ExitFlag(exit) => if exit {
            RequestAction::Stop
        } else {
            RequestAction::Wait(100)
        },
        RequestEvent::Received(request) => RequestAction::Process(request),
        RequestEvent::Timeout => RequestAction::PollRetryable,
        RequestEvent::Disconnected => RequestAction::Stop,
        RequestEvent::Retryable(request) => RequestAction::Process(request),
        RequestEvent::NoRetryable => RequestAction::EndIteration,
        RequestEvent::RetryDisconnected => RequestAction::EndIteration,
        RequestEvent::Processed => RequestAction::EndIteration,
        RequestEvent::IterationEnded => RequestAction::ReadExitFlag,
    }
}

impl RequestEvent {
    /// Whether this can come of `action`.
    pub open spec fn can_come_of(self, action: RequestAction) -> bool {
        match action {
            RequestAction::ReadExitFlag => self is ExitFlag,
            RequestAction::Wait(_) => self is Received || self is Timeout || self is Disconnected,
            RequestAction::Process(_) => self is Processed,
            RequestAction::PollRetryable => {
                self is Retryable || self is NoRetryable || self is RetryDisconnected
            },
            RequestAction::EndIteration => self is IterationEnded,
            RequestAction::Stop => false,
        }
    }
}

/// What the thread did so far: its actions, and what came of each but the last.
pub struct RequestRun {
    pub actions: Seq<RequestAction>,
    pub events: Seq<RequestEvent>,
}

impl RequestRun {
    /// Whether the thread began with the exit flag, and every further action followed what came of
    /// the one before.
    pub open spec fn valid(self) -> bool {
        &&& self.actions.len() == self.events.len() + 1
        &&& self.actions[0] == RequestAction::ReadExitFlag
        &&& forall|i: int|
            0 <= i < self.events.len() ==> {
                &&& (#[trigger] self.events[i]).can_come_of(self.actions[i])
                &&& self.actions[i + 1] == action_after(self.events[i])
            }
    }
}

/// What became of a request.
#[derive(Debug, Clone, Copy, PartialEq, Eq, Structural)]
pub enum RequestOutcome {
    /// Nothing was done with it, as the throttle did not say to drop.
    HeldBack,
    /// The same block was asked for less than five seconds ago.
    AlreadyRequested,
    /// It is noted and counted, and to be sent.
    Recorded,
}

impl BlockIdRepairRequest {
    /// What tells this request from others: the slot and the id of the block.
    pub open spec fn key(self) -> (u64, Seq<u8>) {
        (self.slot, self.block_id@)
    }
}

impl BlockIdRepairRequestsStats {
    /// Whether the counters have room for one more request of this type.
    pub open spec fn can_count(self, repair_type: BlockIdRepairType) -> bool {
        &&& self.total_requests < usize::MAX
        &&& match repair_type {
            BlockIdRepairType::ParentAndFecSetCount => self.parent_fec_set_count_requests
                < usize::MAX,
            BlockIdRepairType::FecSetRoot => self.fec_set_root_requests < usize::MAX,
        }
    }

    /// The counters with one more request of this type.
    pub open spec fn counted(self, repair_type: BlockIdRepairType) -> BlockIdRepairRequestsStats {
        let total_requests = (self.total_requests + 1) as usize;
        match repair_type {
            BlockIdRepairType::ParentAndFecSetCount => BlockIdRepairRequestsStats {
                total_requests,
                parent_fec_set_count_requests: (self.parent_fec_set_count_requests + 1) as usize,
                ..self
            },
            BlockIdRepairType::FecSetRoot => BlockIdRepairRequestsStats {
                total_requests,
                fec_set_root_requests: (self.fec_set_root_requests + 1) as usize,
                ..self
            },
        }
    }

    /// Whether every request was counted by its type.
    pub open spec fn balanced(self) -> bool {
        self.total_requests == self.parent_fec_set_count_requests + self.fec_set_root_requests
    }

    /// Counts one more request of this type.
    pub fn count(&mut self, repair_type: &BlockIdRepairType)
        requires
            old(self).can_count(*repair_type),
        ensures
            *final(self) == old(self).counted(*repair_type),
    {
        self.total_requests += 1;
        match repair_type {
            BlockIdRepairType::ParentAndFecSetCount => {
                self.parent_fec_set_count_requests += 1;
            },
            BlockIdRepairType::FecSetRoot => {
                self.fec_set_root_requests += 1;
            },
        }
    }
}

/// Whether the block with this key was asked for less than five seconds before `checked_at`.
pub open spec fn recently_requested(
    times: RequestTimes,
    key: (u64, Seq<u8>),
    checked_at: u128,
) -> bool {
    times.dom().contains(key) && nanos_between(times[key], checked_at) < 5_000_000_000
}

/// What becomes of a request, given what the throttle says of dropping and the time.
pub open spec fn request_outcome(
    times: RequestTimes,
    request: BlockIdRepairRequest,
    should_drop: bool,
    checked_at: u128,
) -> RequestOutcome {
    if !should_drop {
        RequestOutcome::HeldBack
    } else if recently_requested(times, request.key(), checked_at) {
        RequestOutcome::AlreadyRequested
    } else {
        RequestOutcome::Recorded
    }
}

/// The request times after a request that ended in `outcome`.
pub open spec fn times_after(
    times: RequestTimes,
    request: BlockIdRepairRequest,
    outcome: RequestOutcome,
    stamped_at: u128,
) -> RequestTimes {
    if outcome == RequestOutcome::Recorded {
        times.insert(request.key(), stamped_at)
    } else {
        times
    }
}

/// The counters after a request that ended in `outcome`.
pub open spec fn stats_after(
    stats: BlockIdRepairRequestsStats,
    request: BlockIdRepairRequest,
    outcome: RequestOutcome,
) -> BlockIdRepairRequestsStats {
    if outcome == RequestOutcome::Recorded {
        stats.counted(request.repair_type)
    } else {
        stats
    }
}

/// The readings of the clock at the end of an iteration, in this order.
pub struct IterationReadings {
    /// To see whether an attempt to report is due.
    pub attempt_checked_at: u128,
    /// To see whether there is something to report.
    pub report_checked_at: u128,
    /// From when on the counters count anew.
    pub report_stamped_at: u128,
    /// When the attempt was made.
    pub attempt_stamped_at: u128,
}

impl IterationReadings {
    /// Whether all of them were read on `clock`.
    pub open spec fn read_on(self, clock: Clock) -> bool {
        &&& clock.is_reading(self.attempt_checked_at)
        &&& clock.is_reading(self.report_checked_at)
        &&& clock.is_reading(self.report_stamped_at)
        &&& clock.is_reading(self.attempt_stamped_at)
    }
}

/// What the thread knows between two requests.
pub struct RequestLoop {
    pub clock: Clock,
    pub statuses: RequestStatuses,
    pub stats: BlockIdRepairRequestsStats,
    pub last_stats_report: u128,
}

impl RequestLoop {
    /// Whether processing `request` takes `self` to `next` and ends in `outcome`, when the throttle
    /// says `should_drop` and the clock reads `checked_at` and then `stamped_at`.
    pub open spec fn processed(
        self,
        next: RequestLoop,
        request: BlockIdRepairRequest,
        should_drop: bool,
        checked_at: u128,
        stamped_at: u128,
        outcome: RequestOutcome,
    ) -> bool {
        &&& outcome == request_outcome(self.statuses@, request, should_drop, checked_at)
        &&& next.statuses@ == times_after(self.statuses@, request, outcome, stamped_at)
        &&& next.stats == stats_after(self.stats, request, outcome)
        &&& next.last_stats_report == self.last_stats_report
        &&& next.clock == self.clock
    }

    /// Whether an attempt to report is due at `checked_at`.
    pub open spec fn report_attempt_due(self, checked_at: u128) -> bool {
        seconds_between(self.last_stats_report, checked_at) >= 10
    }

    /// Whether the end of an iteration takes `self` to `next` and hands out `datapoint`, with these
    /// readings of the clock.
    pub open spec fn iteration_ended(
        self,
        next: RequestLoop,
        readings: IterationReadings,
        datapoint: Option<Datapoint>,
    ) -> bool {
        &&& next.statuses@ == self.statuses@
        &&& next.clock == self.clock
        &&& if self.report_attempt_due(readings.attempt_checked_at) {
            &&& self.stats.reported(readings.report_checked_at, datapoint)
            &&& next.stats == self.stats.after_report(
                readings.report_checked_at,
                readings.report_stamped_at,
            )
            &&& next.last_stats_report == readings.attempt_stamped_at
        } else {
            &&& datapoint is None
            &&& next.stats == self.stats
            &&& next.last_stats_report == self.last_stats_report
        }
    }

    /// A thread that reads `last_stats_report`, and then `last_report`, on `clock` as it starts.
    pub fn new_at(clock: Clock, last_stats_report: u128, last_report: u128) -> (state: RequestLoop)
        ensures
            state.clock == clock,
            state.statuses@ == RequestTimes::empty(),
            state.stats == BlockIdRepairRequestsStats::zero(last_report),
            state.last_stats_report == last_stats_report,
    {
        RequestLoop {
            clock,
            statuses: RequestStatuses::new(),
            stats: BlockIdRepairRequestsStats::default_at(last_report),
            last_stats_report,
        }
    }

    /// A thread that starts now.
    pub fn new() -> (state: RequestLoop)
        ensures
            state.statuses@ == RequestTimes::empty(),
            state.stats == BlockIdRepairRequestsStats::zero(state.stats.last_report),
            state.clock.is_started(),
            state.clock.is_reading(state.last_stats_report),
            state.clock.is_reading(state.stats.last_report),
    {
        let clock = Clock::start();
        let last_stats_report: u128 = clock.now();
        let last_report: u128 = clock.now();
        RequestLoop::new_at(clock, last_stats_report, last_report)
    }

    /// The action with which the thread begins.
    pub fn first_action() -> (action: RequestAction)
        ensures
            action == RequestAction::ReadExitFlag,
    {
        RequestAction::ReadExitFlag
    }

    /// What follows from what came of the last action.
    pub fn next_action(event: RequestEvent) -> (action: RequestAction)
        ensures
            action == action_after(event),
    {
        match event {
            RequestEvent::ExitFlag(exit) => if exit {
                RequestAction::Stop
            } else {
                RequestAction::Wait(REQUEST_TIMEOUT_MILLIS)
            },
            RequestEvent::Received(request) => RequestAction::Process(request),
            RequestEvent::Timeout => RequestAction::PollRetryable,
            RequestEvent::Disconnected => RequestAction::Stop,
            RequestEvent::Retryable(request) => RequestAction::Process(request),
            RequestEvent::NoRetryable => RequestAction::EndIteration,
            RequestEvent::RetryDisconnected => RequestAction::EndIteration,
            RequestEvent::Processed => RequestAction::EndIteration,
            RequestEvent::IterationEnded => RequestAction::ReadExitFlag,
        }
    }

    /// Processes a request, when the throttle says `should_drop` of the requests so far and the
    /// clock reads `checked_at` and then `stamped_at`.
    pub fn process_block_id_request_at(
        &mut self,
        request: &BlockIdRepairRequest,
        should_drop: bool,
        checked_at: u128,
        stamped_at: u128,
    ) -> (outcome: RequestOutcome)
        requires
            request_outcome(old(self).statuses@, *request, should_drop, checked_at)
                == RequestOutcome::Recorded ==> old(self).stats.can_count(request.repair_type),
        ensures
            old(self).processed(
                *final(self),
                *request,
                should_drop,
                checked_at,
                stamped_at,
                outcome,
            ),
    {
        if !should_drop {
            return RequestOutcome::HeldBack;
        }
        if let Some(requested_at) = self.statuses.requested_at(request.slot, &request.block_id) {
            if elapsed_nanos(requested_at, checked_at) < REPEAT_AFTER_NANOS {
                return RequestOutcome::AlreadyRequested;
            }
            self.statuses.remove(request.slot, &request.block_id);
        }
        self.statuses.insert(request.slot, &request.block_id, stamped_at);
        assert(self.statuses@ =~= old(self).statuses@.insert(request.key(), stamped_at));
        self.stats.count(&request.repair_type);
        RequestOutcome::Recorded
    }

    /// Processes a request: asks the throttle whether to drop after the requests so far, and reads
    /// the clock.
    pub fn process_block_id_request<F: Fn(usize) -> bool>(
        &mut self,
        request: &BlockIdRepairRequest,
        should_drop: F,
    ) -> (outcome: RequestOutcome)
        requires
            call_requires(should_drop, (old(self).stats.total_requests,)),
            call_ensures(should_drop, (old(self).stats.total_requests,), true)
                ==> old(self).stats.can_count(request.repair_type),
        ensures
            exists|dropping: bool, checked_at: u128, stamped_at: u128|
                call_ensures(should_drop, (old(self).stats.total_requests,), dropping)
                    && old(self).clock.is_reading(checked_at) && old(self).clock.is_reading(
                    stamped_at,
                ) && #[trigger] old(self).processed(
                    *final(self),
                    *request,
                    dropping,
                    checked_at,
                    stamped_at,
                    outcome,
                ),
    {
        let dropping = should_drop(self.stats.total_requests);
        let checked_at: u128 = self.clock.now();
        let stamped_at: u128 = self.clock.now();
        self.process_block_id_request_at(request, dropping, checked_at, stamped_at)
    }

    /// Ends an iteration of the loop, with these readings of the clock: attempts a report once in
    /// ten seconds.
    pub fn end_iteration_at(&mut self, readings: IterationReadings) -> (datapoint: Option<
        Datapoint,
    >)
        ensures
            old(self).iteration_ended(*final(self), readings, datapoint),
    {
        if elapsed_seconds(self.last_stats_report, readings.attempt_checked_at)
            >= REPORT_EVERY_SECONDS {
            let datapoint = self.stats.report_at(
                readings.report_checked_at,
                readings.report_stamped_at,
            );
            self.last_stats_report = readings.attempt_stamped_at;
            datapoint
        } else {
            None
        }
    }

    /// Ends an iteration of the loop: attempts a report once in ten seconds.
    pub fn end_iteration(&mut self) -> (datapoint: Option<Datapoint>)
        ensures
            exists|readings: IterationReadings|
                readings.read_on(old(self).clock) && #[trigger] old(self).iteration_ended(
                    *final(self),
                    readings,
                    datapoint,
                ),
    {
        let attempt_checked_at: u128 = self.clock.now();
        let report_checked_at: u128 = self.clock.now();
        let report_stamped_at: u128 = self.clock.now();
        let attempt_stamped_at: u128 = self.clock.now();
        let readings = IterationReadings {
            attempt_checked_at,
            report_checked_at,
            report_stamped_at,
            attempt_stamped_at,
        };
        self.end_iteration_at(readings)
    }
}

/// Once a block was asked for, no request for it is recorded for the next five seconds, and
/// refusing it changes neither the request times nor the counters.
pub proof fn law_repeat_is_refused(
    before: RequestLoop,
    after: RequestLoop,
    request: BlockIdRepairRequest,
    should_drop: bool,
    checked_at: u128,
    stamped_at: u128,
    repeat: BlockIdRepairRequest,
    repeat_should_drop: bool,
    repeat_checked_at: u128,
    repeat_stamped_at: u128,
)
    requires
        before.processed(
            after,
            request,
            should_drop,
            checked_at,
            stamped_at,
            RequestOutcome::Recorded,
        ),
        repeat.key() == request.key(),
        nanos_between(stamped_at, repeat_checked_at) < 5_000_000_000,
    ensures
        ({
            let outcome = request_outcome(
                after.statuses@,
                repeat,
                repeat_should_drop,
                repeat_checked_at,
            );
            &&& outcome != RequestOutcome::Recorded
            &&& repeat_should_drop ==> outcome == RequestOutcome::AlreadyRequested
            &&& times_after(after.statuses@, repeat, outcome, repeat_stamped_at) == after.statuses@
            &&& stats_after(after.stats, repeat, outcome) == after.stats
        }),
{
}

/// Five seconds after a block was asked for, a request for it is recorded again, where the throttle
/// says to drop.
pub proof fn law_repeat_is_recorded_later(
    before: RequestLoop,
    after: RequestLoop,
    request: BlockIdRepairRequest,
    should_drop: bool,
    checked_at: u128,
    stamped_at: u128,
    repeat: BlockIdRepairRequest,
    repeat_checked_at: u128,
)
    requires
        before.processed(
            after,
            request,
            should_drop,
            checked_at,
            stamped_at,
            RequestOutcome::Recorded,
        ),
        repeat.key() == request.key(),
        nanos_between(stamped_at, repeat_checked_at) >= 5_000_000_000,
    ensures
        request_outcome(after.statuses@, repeat, true, repeat_checked_at)
            == RequestOutcome::Recorded,
{
}

/// A request bears on no other block: whether another one was asked for recently stays as it was.
pub proof fn law_other_blocks_are_unaffected(
    before: RequestLoop,
    after: RequestLoop,
    request: BlockIdRepairRequest,
    should_drop: bool,
    checked_at: u128,
    stamped_at: u128,
    outcome: RequestOutcome,
    other: (u64, Seq<u8>),
    other_checked_at: u128,
)
    requires
        before.processed(after, request, should_drop, checked_at, stamped_at, outcome),
        other != request.key(),
    ensures
        recently_requested(after.statuses@, other, other_checked_at) == recently_requested(
            before.statuses@,
            other,
            other_checked_at,
        ),
{
}

/// The requests counted in all are those counted by type, whatever is processed.
pub proof fn law_processing_keeps_counters_balanced(
    before: RequestLoop,
    after: RequestLoop,
    request: BlockIdRepairRequest,
    should_drop: bool,
    checked_at: u128,
    stamped_at: u128,
    outcome: RequestOutcome,
)
    requires
        before.processed(after, request, should_drop, checked_at, stamped_at, outcome),
        before.stats.balanced(),
        before.stats.can_count(request.repair_type),
    ensures
        after.stats.balanced(),
        after.stats.total_requests == before.stats.total_requests + (if outcome
            == RequestOutcome::Recorded {
            1int
        } else {
            0int
        }),
{
}

/// The requests counted in all are those counted by type, whether or not an iteration reports, and
/// the counters change only where they are handed out.
pub proof fn law_iteration_keeps_counters(
    before: RequestLoop,
    after: RequestLoop,
    readings: IterationReadings,
    datapoint: Option<Datapoint>,
)
    requires
        before.iteration_ended(after, readings, datapoint),
    ensures
        before.stats.balanced() ==> after.stats.balanced(),
        datapoint is None ==> after.stats == before.stats,
        datapoint is Some ==> after.stats == BlockIdRepairRequestsStats::zero(
            readings.report_stamped_at,
        ),
        datapoint is Some ==> datapoint->0.field_values() == before.stats.datapoint_fields(),
{
}

/// After an attempt to report, none is due for the next ten seconds.
pub proof fn law_report_attempts_are_spaced(
    before: RequestLoop,
    after: RequestLoop,
    readings: IterationReadings,
    datapoint: Option<Datapoint>,
    next_checked_at: u128,
)
    requires
        before.iteration_ended(after, readings, datapoint),
        before.report_attempt_due(readings.attempt_checked_at),
        nanos_between(readings.attempt_stamped_at, next_checked_at) < 10_000_000_000,
    ensures
        !after.report_attempt_due(next_checked_at),
{
}

/// A request is tried again only right after a wait for a new request has timed out, which in turn
/// came right after the exit flag was found unset. So each one has a timeout of its own, and new
/// requests come first. It is processed, and then the iteration ends.
pub proof fn law_retry_follows_a_timeout(run: RequestRun, i: int)
    requires
        run.valid(),
        0 <= i < run.events.len(),
        run.events[i] is Retryable,
    ensures
        i >= 2,
        run.actions[i] == RequestAction::PollRetryable,
        run.events[i - 1] == RequestEvent::Timeout,
        run.actions[i - 1] == RequestAction::Wait(100),
        run.events[i - 2] == RequestEvent::ExitFlag(false),
        run.actions[i + 1] == RequestAction::Process(run.events[i]->Retryable_0),
        i + 2 < run.actions.len() ==> run.actions[i + 2] == RequestAction::EndIteration,
        i + 3 < run.actions.len() ==> run.actions[i + 3] == RequestAction::ReadExitFlag,
{
    lemma_step_back(run, i);
    lemma_step_back(run, i - 1);
    lemma_step_back(run, i - 2);
    lemma_step_on(run, i);
    lemma_step_on(run, i + 1);
    lemma_step_on(run, i + 2);
}

/// That there is no request to try again, or that none can come any more, is ignored: the iteration
/// ends and the thread goes on.
pub proof fn law_nothing_to_retry_is_ignored(run: RequestRun, i: int)
    requires
        run.valid(),
        0 <= i < run.events.len(),
        run.events[i] is NoRetryable || run.events[i] is RetryDisconnected,
    ensures
        run.actions[i + 1] == RequestAction::EndIteration,
        i + 2 < run.actions.len() ==> run.actions[i + 2] == RequestAction::ReadExitFlag,
{
    lemma_step_on(run, i);
    lemma_step_on(run, i + 1);
}

/// A request that is processed came new, or is one to be tried again; after it the iteration ends.
pub proof fn law_every_request_comes_from_a_channel(run: RequestRun, i: int)
    requires
        run.valid(),
        0 <= i < run.actions.len(),
        run.actions[i] is Process,
    ensures
        i >= 1,
        run.events[i - 1] == RequestEvent::Received(run.actions[i]->Process_0) || run.events[i - 1]
            == RequestEvent::Retryable(run.actions[i]->Process_0),
        i + 1 < run.actions.len() ==> run.actions[i + 1] == RequestAction::EndIteration,
{
    lemma_step_back(run, i);
    lemma_step_on(run, i);
}

/// The thread ends exactly where the exit flag is found set or no new request can come any more.
pub proof fn law_thread_ends_on_exit_or_disconnect(run: RequestRun, i: int)
    requires
        run.valid(),
        0 <= i < run.events.len(),
    ensures
        run.actions[i + 1] == RequestAction::Stop <==> (run.events[i] == RequestEvent::ExitFlag(
            true,
        ) || run.events[i] == RequestEvent::Disconnected),
{
    lemma_step_on(run, i);
}

/// Every iteration that does not end the thread ends in its own end of iteration: whenever the
/// thread comes back to the exit flag, it has just ended an iteration, and once it waits for a
/// request, it ends the iteration at the second or third action from there, or stops at the next.
pub proof fn law_every_iteration_is_ended(run: RequestRun, i: int)
    requires
        run.valid(),
        0 <= i < run.actions.len(),
    ensures
        run.actions[i] == RequestAction::ReadExitFlag && i > 0 ==> run.actions[i - 1]
            == RequestAction::EndIteration,
        run.actions[i] is Wait && i + 3 < run.actions.len() ==> run.actions[i + 2]
            == RequestAction::EndIteration || run.actions[i + 3] == RequestAction::EndIteration,
        run.actions[i] is Wait && i + 1 < run.actions.len() ==> (run.actions[i + 1]
            == RequestAction::Stop <==> run.events[i] == RequestEvent::Disconnected),
{
    lemma_step_back(run, i);
    lemma_step_back(run, i - 1);
    lemma_step_on(run, i);
    lemma_step_on(run, i + 1);
    lemma_step_on(run, i + 2);
}

/// What came of an action, and what followed, where the run holds it.
proof fn lemma_step_on(run: RequestRun, i: int)
    requires
        run.valid(),
    ensures
        0 <= i < run.events.len() ==> run.events[i].can_come_of(run.actions[i]) && run.actions[i
            + 1] == action_after(run.events[i]),
{
}

/// What an action followed, where it is not the first.
proof fn lemma_step_back(run: RequestRun, i: int)
    requires
        run.valid(),
    ensures
        0 < i < run.actions.len() ==> run.actions[i] == action_after(run.events[i - 1])
            && run.events[i - 1].can_come_of(run.actions[i - 1]),
{
    if 0 < i < run.actions.len() {
        assert(run.actions[i - 1 + 1] == action_after(run.events[i - 1]));
    }
}

/// A request that the throttle does not say to drop after is left alone. Of the others, one for a
/// block that was noted less than five seconds before is refused, and every other one is recorded:
/// also one for a block that was never asked for, and one for another id in the same slot or for the
/// same id in another slot.
pub proof fn law_only_a_repeat_within_five_seconds_is_refused(
    request: BlockIdRepairRequest,
    should_drop: bool,
    checked_at: u128,
    stamped_at: u128,
)
    ensures
        forall|state: &mut RequestLoop, outcome: RequestOutcome| #[trigger]
            call_ensures(
                RequestLoop::process_block_id_request_at,
                (state, &request, should_drop, checked_at, stamped_at),
                outcome,
            ) ==> {
                let noted = (*state).statuses@;
                let block = (request.slot, request.block_id@);
                &&& outcome == RequestOutcome::HeldBack <==> !should_drop
                &&& outcome == RequestOutcome::AlreadyRequested <==> should_drop
                    && noted.dom().contains(block) && checked_at < noted[block] + 5_000_000_000
                &&& outcome == RequestOutcome::Recorded <==> should_drop && (
                !noted.dom().contains(block) || checked_at >= noted[block] + 5_000_000_000)
            },
{
}

/// A request that is recorded is noted under its slot and its block id with the time at which it
/// was, and is counted once in all and once by its type. Nothing else changes, and nothing at all
/// changes by a request that is not recorded.
pub proof fn law_recording_notes_and_counts_the_request(
    request: BlockIdRepairRequest,
    should_drop: bool,
    checked_at: u128,
    stamped_at: u128,
)
    ensures
        forall|state: &mut RequestLoop, outcome: RequestOutcome| #[trigger]
            call_ensures(
                RequestLoop::process_block_id_request_at,
                (state, &request, should_drop, checked_at, stamped_at),
                outcome,
            ) ==> {
                let before = (*state).stats;
                let after = (*final(state)).stats;
                let noted = (*state).statuses@;
                let noted_after = (*final(state)).statuses@;
                let block = (request.slot, request.block_id@);
                let root = request.repair_type == BlockIdRepairType::FecSetRoot;
                &&& (*final(state)).clock == (*state).clock
                &&& (*final(state)).last_stats_report == (*state).last_stats_report
                &&& after.last_report == before.last_report
                &&& outcome != RequestOutcome::Recorded ==> noted_after == noted && after == before
                &&& outcome == RequestOutcome::Recorded ==> {
                    &&& noted_after.dom().contains(block)
                    &&& noted_after[block] == stamped_at
                    &&& forall|other: (u64, Seq<u8>)|
                        other != block ==> (#[trigger] noted_after.dom().contains(other)
                            <==> noted.dom().contains(other))
                    &&& forall|other: (u64, Seq<u8>)|
                        other != block && noted.dom().contains(other)
                            ==> #[trigger] noted_after[other] == noted[other]
                }
                &&& outcome == RequestOutcome::Recorded ==> {
                    &&& before.total_requests < usize::MAX ==> after.total_requests
                        == before.total_requests + 1
                    &&& root && before.fec_set_root_requests < usize::MAX
                        ==> after.fec_set_root_requests == before.fec_set_root_requests + 1
                        && after.parent_fec_set_count_requests
                        == before.parent_fec_set_count_requests
                    &&& !root && before.parent_fec_set_count_requests < usize::MAX
                        ==> after.parent_fec_set_count_requests
                        == before.parent_fec_set_count_requests + 1 && after.fec_set_root_requests
                        == before.fec_set_root_requests
                }
            },
{
}

/// Once a block was recorded at `stamped_at`, a request for the same slot and block id that is
/// checked before five seconds have gone by is refused, and one that is checked at five seconds or
/// any time later is recorded, where the throttle says to drop.
pub proof fn law_block_is_asked_for_again_after_five_seconds(
    request: BlockIdRepairRequest,
    should_drop: bool,
    checked_at: u128,
    stamped_at: u128,
    repeat: BlockIdRepairRequest,
    repeat_checked_at: u128,
    repeat_stamped_at: u128,
)
    requires
        repeat.slot == request.slot,
        repeat.block_id == request.block_id,
    ensures
        forall|
            state: &mut RequestLoop,
            later: &mut RequestLoop,
            outcome: RequestOutcome,
        |
            #[trigger] call_ensures(
                RequestLoop::process_block_id_request_at,
                (state, &request, should_drop, checked_at, stamped_at),
                RequestOutcome::Recorded,
            ) && (*later) == *final(state) && #[trigger] call_ensures(
                RequestLoop::process_block_id_request_at,
                (later, &repeat, true, repeat_checked_at, repeat_stamped_at),
                outcome,
            ) ==> {
                &&& repeat_checked_at >= stamped_at + 5_000_000_000 ==> outcome
                    == RequestOutcome::Recorded
                &&& repeat_checked_at < stamped_at + 5_000_000_000 ==> outcome
                    == RequestOutcome::AlreadyRequested
            },
{
}

/// What is processed by the clock and a throttle: where the throttle can only say not to drop,
/// nothing is done; where it can only say to drop, a block that was never asked for is recorded at
/// a reading of the clock, and one that was noted is recorded again only by a reading five seconds
/// after that, and refused only by one before.
pub proof fn law_processing_goes_by_the_clock_and_the_throttle<F: Fn(usize) -> bool>(
    request: BlockIdRepairRequest,
    should_drop: F,
)
    ensures
        forall|state: &mut RequestLoop, outcome: RequestOutcome| #[trigger]
            call_ensures(
                RequestLoop::process_block_id_request::<F>,
                (state, &request, should_drop),
                outcome,
            ) ==> {
                let clock = (*state).clock;
                let noted = (*state).statuses@;
                let block = (request.slot, request.block_id@);
                let asked = ((*state).stats.total_requests,);
                &&& !call_ensures(should_drop, asked, true) ==> outcome == RequestOutcome::HeldBack
                &&& !call_ensures(should_drop, asked, false) ==> outcome != RequestOutcome::HeldBack
                &&& outcome != RequestOutcome::Recorded ==> (*final(state)).statuses@ == noted
                    && (*final(state)).stats == (*state).stats
                &&& outcome == RequestOutcome::Recorded ==> {
                    &&& (*final(state)).statuses@.dom().contains(block)
                    &&& clock.is_reading((*final(state)).statuses@[block])
                    &&& (*state).stats.total_requests < usize::MAX
                        ==> (*final(state)).stats.total_requests == (*state).stats.total_requests + 1
                    &&& noted.dom().contains(block) ==> exists|checked_at: u128| #[trigger]
                        clock.is_reading(checked_at) && checked_at >= noted[block] + 5_000_000_000
                }
                &&& outcome == RequestOutcome::AlreadyRequested ==> {
                    &&& noted.dom().contains(block)
                    &&& exists|checked_at: u128| #[trigger]
                        clock.is_reading(checked_at) && checked_at < noted[block] + 5_000_000_000
                }
            },
{
    assert forall|state: &mut RequestLoop, outcome: RequestOutcome| #[trigger]
        call_ensures(
            RequestLoop::process_block_id_request::<F>,
            (state, &request, should_drop),
            outcome,
        ) implies exists|dropping: bool, checked_at: u128, stamped_at: u128|
        call_ensures(should_drop, ((*state).stats.total_requests,), dropping)
            && (*state).clock.is_reading(checked_at) && (*state).clock.is_reading(stamped_at)
            && #[trigger] (*state).processed(
            *final(state),
            request,
            dropping,
            checked_at,
            stamped_at,
            outcome,
        ) by {
    }
}

/// A request can be counted, and so processed, wherever the counter of all requests and that of its
/// type are not full.
pub proof fn law_counting_needs_room_for_one(
    request: BlockIdRepairRequest,
    repair_type: BlockIdRepairType,
    should_drop: bool,
    checked_at: u128,
    stamped_at: u128,
)
    requires
        request.repair_type == repair_type,
    ensures
        forall|stats: &mut BlockIdRepairRequestsStats| #![trigger call_requires(
            BlockIdRepairRequestsStats::count,
            (stats, &repair_type),
        )]
            stats.total_requests < usize::MAX && (if repair_type == BlockIdRepairType::FecSetRoot {
                stats.fec_set_root_requests < usize::MAX
            } else {
                stats.parent_fec_set_count_requests < usize::MAX
            }) ==> call_requires(BlockIdRepairRequestsStats::count, (stats, &repair_type)),
        forall|state: &mut RequestLoop| #![trigger call_requires(
            RequestLoop::process_block_id_request_at,
            (state, &request, should_drop, checked_at, stamped_at),
        )]
            (*state).stats.total_requests < usize::MAX && (if repair_type
                == BlockIdRepairType::FecSetRoot {
                (*state).stats.fec_set_root_requests < usize::MAX
            } else {
                (*state).stats.parent_fec_set_count_requests < usize::MAX
            }) ==> call_requires(
                RequestLoop::process_block_id_request_at,
                (state, &request, should_drop, checked_at, stamped_at),
            ),
{
}

/// At the end of an iteration an attempt to report is made exactly where ten seconds have passed
/// since the last one. Something is handed out exactly where it is made, there was some request, and
/// three seconds have passed since the counters last started at zero; only then do the counters
/// change. The request times never do.
pub proof fn law_iteration_reports_after_ten_seconds(readings: IterationReadings)
    ensures
        forall|state: &mut RequestLoop, reported: Option<Datapoint>| #[trigger]
            call_ensures(RequestLoop::end_iteration_at, (state, readings), reported) ==> {
                let stats = (*state).stats;
                let attempted = readings.attempt_checked_at >= (*state).last_stats_report
                    + 10_000_000_000;
                &&& (*final(state)).clock == (*state).clock
                &&& (*final(state)).statuses@ == (*state).statuses@
                &&& (*final(state)).last_stats_report == if attempted {
                    readings.attempt_stamped_at
                } else {
                    (*state).last_stats_report
                }
                &&& reported is Some <==> attempted && stats.total_requests > 0
                    && readings.report_checked_at >= stats.last_report + 3_000_000_000
                &&& reported is None ==> (*final(state)).stats == stats
                &&& reported is Some ==> {
                    &&& reported->0.name@ == "block_id_repair_requests"@
                    &&& reported->0.fields@.len() == 3
                    &&& reported->0.fields@[0].0@ == "total_requests"@
                    &&& stats.total_requests <= i64::MAX ==> reported->0.fields@[0].1
                        == stats.total_requests
                    &&& (*final(state)).stats.total_requests == 0
                    &&& (*final(state)).stats.parent_fec_set_count_requests == 0
                    &&& (*final(state)).stats.fec_set_root_requests == 0
                    &&& (*final(state)).stats.last_report == readings.report_stamped_at
                }
            },
{
    assert forall|state: &mut RequestLoop, reported: Option<Datapoint>| #[trigger]
        call_ensures(RequestLoop::end_iteration_at, (state, readings), reported)
            && reported is Some implies {
        &&& reported->0.fields@.len() == 3
        &&& (reported->0.fields@[0].0@, reported->0.fields@[0].1)
            == (*state).stats.datapoint_fields()[0]
    } by {
        let datapoint = reported->0;
        assert(datapoint.field_values().len() == datapoint.fields@.len());
        assert(datapoint.field_values()[0] == (datapoint.fields@[0].0@, datapoint.fields@[0].1));
    }
}

/// An iteration that ends by the clock reports by readings of that clock: it moves the time of the
/// last attempt only to such a reading, and only by one that is ten seconds after it.
pub proof fn law_iteration_goes_by_the_clock()
    ensures
        forall|state: &mut RequestLoop, reported: Option<Datapoint>| #[trigger]
            call_ensures(RequestLoop::end_iteration, (state,), reported) ==> {
                let clock = (*state).clock;
                let due = (*state).last_stats_report + 10_000_000_000;
                &&& (*final(state)).statuses@ == (*state).statuses@
                &&& reported is None ==> (*final(state)).stats == (*state).stats
                &&& (*final(state)).last_stats_report != (*state).last_stats_report ==> {
                    &&& clock.is_reading((*final(state)).last_stats_report)
                    &&& exists|checked_at: u128| #[trigger]
                        clock.is_reading(checked_at) && checked_at >= due
                }
                &&& (*final(state)).last_stats_report == (*state).last_stats_report
                    && !clock.is_reading((*state).last_stats_report) ==> exists|checked_at: u128|
                    #[trigger] clock.is_reading(checked_at) && checked_at < due
                &&& reported is Some ==> {
                    &&& (*state).stats.total_requests > 0
                    &&& (*final(state)).stats.total_requests == 0
                    &&& clock.is_reading((*final(state)).stats.last_report)
                    &&& exists|checked_at: u128| #[trigger]
                        clock.is_reading(checked_at) && checked_at >= due
                }
            },
{
}

/// Every event has its own action: a request that comes is processed, be it new or to be tried
/// again; a wait that times out leads to the requests to be tried again, and to nothing else; the
/// exit flag leads to a wait of a tenth of a second, or to the end; and every iteration is ended
/// before the flag is read again.
pub proof fn law_every_event_has_its_action(event: RequestEvent, action: RequestAction)
    requires
        call_ensures(RequestLoop::next_action, (event,), action),
    ensures
        action == RequestAction::Stop <==> event == RequestEvent::ExitFlag(true) || event
            == RequestEvent::Disconnected,
        action == RequestAction::Wait(100) <==> event == RequestEvent::ExitFlag(false),
        action is Wait ==> action == RequestAction::Wait(100),
        action is Process <==> event is Received || event is Retryable,
        event matches RequestEvent::Received(request) ==> action == RequestAction::Process(request),
        event matches RequestEvent::Retryable(request) ==> action == RequestAction::Process(request),
        action == RequestAction::PollRetryable <==> event == RequestEvent::Timeout,
        action == RequestAction::EndIteration <==> event is NoRetryable || event is RetryDisconnected
            || event is Processed,
        action == RequestAction::ReadExitFlag <==> event is IterationEnded,
{
}

/// Every request that comes in a run of the thread is processed at the next action, and every wait
/// that times out is followed by a look at the requests to be tried again.
pub proof fn law_every_request_is_processed(run: RequestRun, i: int)
    requires
        run.valid(),
        0 <= i < run.events.len(),
    ensures
        run.events[i] matches RequestEvent::Received(request) ==> run.actions[i + 1]
            == RequestAction::Process(request),
        run.events[i] matches RequestEvent::Retryable(request) ==> run.actions[i + 1]
            == RequestAction::Process(request),
        run.events[i] is Timeout ==> run.actions[i + 1] == RequestAction::PollRetryable,
        run.events[i] == RequestEvent::ExitFlag(false) ==> run.actions[i + 1]
            == RequestAction::Wait(100),
{
    lemma_step_on(run, i);
}

/// A thread starts with no request noted or counted, with the times that it was given, and with a
/// look at the exit flag.
pub proof fn law_thread_starts_afresh(
    clock: Clock,
    last_stats_report: u128,
    last_report: u128,
    state: RequestLoop,
    action: RequestAction,
)
    requires
        call_ensures(RequestLoop::new_at, (clock, last_stats_report, last_report), state),
        call_ensures(RequestLoop::first_action, (), action),
    ensures
        state.clock == clock,
        forall|block: (u64, Seq<u8>)| !#[trigger] state.statuses@.dom().contains(block),
        state.stats.total_requests == 0,
        state.stats.parent_fec_set_count_requests == 0,
        state.stats.fec_set_root_requests == 0,
        state.stats.last_report == last_report,
        state.last_stats_report == last_stats_report,
        action == RequestAction::ReadExitFlag,
{
}

/// A thread that starts now has no request noted or counted either, and starts a clock of its own,
/// on which both of its times were read.
pub proof fn law_thread_starts_its_clock(state: RequestLoop)
    requires
        call_ensures(RequestLoop::new, (), state),
    ensures
        forall|block: (u64, Seq<u8>)| !#[trigger] state.statuses@.dom().contains(block),
        state.stats.total_requests == 0,
        state.stats.parent_fec_set_count_requests == 0,
        state.stats.fec_set_root_requests == 0,
        state.clock.is_started(),
        state.clock.is_reading(state.stats.last_report),
        state.clock.is_reading(state.last_stats_report),
{
}

/// By the clock and a throttle, a request can be processed wherever the throttle can be asked, and
/// the counters have room or the throttle cannot say to drop.
pub proof fn law_every_request_can_be_processed<F: Fn(usize) -> bool>(
    request: BlockIdRepairRequest,
    should_drop: F,
)
    ensures
        forall|state: &mut RequestLoop| #![trigger call_requires(
            RequestLoop::process_block_id_request::<F>,
            (state, &request, should_drop),
        )]
            call_requires(should_drop, ((*state).stats.total_requests,)) && (call_ensures(
                should_drop,
                ((*state).stats.total_requests,),
                true,
            ) ==> (*state).stats.total_requests < usize::MAX && (if request.repair_type
                == BlockIdRepairType::FecSetRoot {
                (*state).stats.fec_set_root_requests < usize::MAX
            } else {
                (*state).stats.parent_fec_set_count_requests < usize::MAX
            })) ==> call_requires(
                RequestLoop::process_block_id_request::<F>,
                (state, &request, should_drop),
            ),
{
}

} // verus!
