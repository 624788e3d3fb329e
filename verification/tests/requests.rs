use block_repair::block_id_repair::{
    BlockIdRepairRequest, BlockIdRepairRequestsStats, BlockIdRepairType,
    MAX_BLOCK_ID_REQUESTS_PER_SECOND,
};
use block_repair::clock::{elapsed_nanos, elapsed_seconds, Clock};
use block_repair::request_loop::{
    IterationReadings, RequestAction, RequestEvent, RequestLoop, RequestOutcome,
};
use block_repair::request_statuses::RequestStatuses;
use std::cell::Cell;

const SECOND: u128 = 1_000_000_000;

fn request(slot: u64, id: u8, repair_type: BlockIdRepairType) -> BlockIdRepairRequest {
    BlockIdRepairRequest { slot, block_id: [id; 32], repair_type }
}

fn counters(state: &RequestLoop) -> (usize, usize, usize) {
    (
        state.stats.total_requests,
        state.stats.parent_fec_set_count_requests,
        state.stats.fec_set_root_requests,
    )
}

#[test]
fn request_limit_is_ten() {
    assert_eq!(MAX_BLOCK_ID_REQUESTS_PER_SECOND, 10);
}

#[test]
fn elapsed_time_saturates_and_rounds_down() {
    assert_eq!(elapsed_nanos(5, 3), 0);
    assert_eq!(elapsed_nanos(3, 5), 2);
    assert_eq!(elapsed_seconds(1, 3 * SECOND), 2);
    assert_eq!(elapsed_seconds(0, 3 * SECOND), 3);
}

#[test]
fn clock_does_not_go_back() {
    let clock = Clock::start();
    let first = clock.now();
    let second = clock.now();
    assert!(first <= second);
}

#[test]
fn statuses_hold_what_was_inserted() {
    let mut statuses = RequestStatuses::new();
    assert_eq!(statuses.requested_at(7, &[1; 32]), None);
    statuses.insert(7, &[1; 32], 100);
    statuses.insert(7, &[2; 32], 200);
    statuses.insert(8, &[1; 32], 300);
    statuses.insert(7, &[1; 32], 400);
    assert_eq!(statuses.requested_at(7, &[1; 32]), Some(400));
    assert_eq!(statuses.requested_at(7, &[2; 32]), Some(200));
    statuses.remove(7, &[1; 32]);
    assert_eq!(statuses.requested_at(7, &[1; 32]), None);
    assert_eq!(statuses.requested_at(7, &[2; 32]), Some(200));
    assert_eq!(statuses.requested_at(8, &[1; 32]), Some(300));
}

#[test]
fn nothing_is_recorded_unless_the_throttle_says_drop() {
    let mut state = RequestLoop::new_at(Clock::start(), 0, 0);
    let asked = request(1, 1, BlockIdRepairType::FecSetRoot);
    let outcome = state.process_block_id_request_at(&asked, false, 0, 0);
    assert_eq!(outcome, RequestOutcome::HeldBack);
    assert_eq!(counters(&state), (0, 0, 0));
    assert_eq!(state.statuses.requested_at(1, &[1; 32]), None);
}

#[test]
fn repeat_within_five_seconds_is_refused() {
    let mut state = RequestLoop::new_at(Clock::start(), 0, 0);
    let asked = request(1, 1, BlockIdRepairType::ParentAndFecSetCount);
    assert_eq!(
        state.process_block_id_request_at(&asked, true, 10, 20),
        RequestOutcome::Recorded
    );
    assert_eq!(counters(&state), (1, 1, 0));
    let again = request(1, 1, BlockIdRepairType::FecSetRoot);
    assert_eq!(
        state.process_block_id_request_at(&again, true, 20 + 5 * SECOND - 1, 99),
        RequestOutcome::AlreadyRequested
    );
    assert_eq!(counters(&state), (1, 1, 0));
    assert_eq!(state.statuses.requested_at(1, &[1; 32]), Some(20));
    // the clock went back
    assert_eq!(
        state.process_block_id_request_at(&again, true, 0, 0),
        RequestOutcome::AlreadyRequested
    );
}

#[test]
fn repeat_after_five_seconds_is_recorded() {
    let mut state = RequestLoop::new_at(Clock::start(), 0, 0);
    let asked = request(1, 1, BlockIdRepairType::FecSetRoot);
    assert_eq!(
        state.process_block_id_request_at(&asked, true, 10, 20),
        RequestOutcome::Recorded
    );
    assert_eq!(
        state.process_block_id_request_at(&asked, true, 20 + 5 * SECOND, 21 + 5 * SECOND),
        RequestOutcome::Recorded
    );
    assert_eq!(counters(&state), (2, 0, 2));
    assert_eq!(state.statuses.requested_at(1, &[1; 32]), Some(21 + 5 * SECOND));
}

#[test]
fn other_blocks_are_unaffected_by_a_request() {
    let mut state = RequestLoop::new_at(Clock::start(), 0, 0);
    let first = request(1, 1, BlockIdRepairType::FecSetRoot);
    let other_id = request(1, 2, BlockIdRepairType::ParentAndFecSetCount);
    let other_slot = request(2, 1, BlockIdRepairType::FecSetRoot);
    for asked in [first, other_id, other_slot] {
        assert_eq!(
            state.process_block_id_request_at(&asked, true, 0, 0),
            RequestOutcome::Recorded
        );
    }
    assert_eq!(counters(&state), (3, 1, 2));
}

#[test]
fn full_counters_do_not_matter_to_a_request_held_back() {
    let mut state = RequestLoop::new();
    state.stats.total_requests = usize::MAX;
    let asked = request(1, 1, BlockIdRepairType::FecSetRoot);
    let outcome = state.process_block_id_request(&asked, |_| false);
    assert_eq!(outcome, RequestOutcome::HeldBack);
    assert_eq!(state.stats.total_requests, usize::MAX);
}

#[test]
fn readings_come_from_the_clock() {
    let mut state = RequestLoop::new();
    let asked = request(1, 1, BlockIdRepairType::FecSetRoot);
    let before = state.clock.now();
    assert!(state.last_stats_report <= state.stats.last_report);
    assert!(state.stats.last_report <= before);
    state.process_block_id_request(&asked, |_| true);
    let after = state.clock.now();
    let stamped = state.statuses.requested_at(1, &[1; 32]).unwrap();
    assert!(before <= stamped && stamped <= after);
}

#[test]
fn throttle_is_asked_about_the_requests_so_far() {
    let mut state = RequestLoop::new();
    let seen = Cell::new(usize::MAX);
    let asked = request(1, 1, BlockIdRepairType::FecSetRoot);
    let outcome = state.process_block_id_request(&asked, |total| {
        seen.set(total);
        true
    });
    assert_eq!(outcome, RequestOutcome::Recorded);
    assert_eq!(seen.get(), 0);
    let next = request(2, 1, BlockIdRepairType::FecSetRoot);
    let outcome = state.process_block_id_request(&next, |total| {
        seen.set(total);
        false
    });
    assert_eq!(outcome, RequestOutcome::HeldBack);
    assert_eq!(seen.get(), 1);
    let outcome = state.process_block_id_request(&asked, |_| true);
    assert_eq!(outcome, RequestOutcome::AlreadyRequested);
}

/// Runs the loop over these answers, one for each action, and names the actions in order.
fn actions(answers: Vec<RequestEvent>) -> String {
    let mut action = RequestLoop::first_action();
    let mut names = String::new();
    let mut answers = answers.into_iter();
    loop {
        names.push_str(match action {
            RequestAction::ReadExitFlag => "flag ",
            RequestAction::Wait(millis) => {
                assert_eq!(millis, 100);
                "wait "
            }
            RequestAction::Process(request) => {
                assert_eq!(request.slot, 3);
                "process "
            }
            RequestAction::PollRetryable => "poll ",
            RequestAction::EndIteration => "end ",
            RequestAction::Stop => "stop ",
        });
        match answers.next() {
            Some(answer) => action = RequestLoop::next_action(answer),
            None => return names,
        }
    }
}

#[test]
fn new_request_is_processed_before_any_retry() {
    let asked = request(3, 4, BlockIdRepairType::FecSetRoot);
    let run = vec![
        RequestEvent::ExitFlag(false),
        RequestEvent::Received(asked),
        RequestEvent::Processed,
        RequestEvent::IterationEnded,
        RequestEvent::ExitFlag(true),
    ];
    assert_eq!(actions(run), "flag wait process end flag stop ");
}

#[test]
fn one_retry_follows_a_timeout() {
    let asked = request(3, 4, BlockIdRepairType::FecSetRoot);
    let run = vec![
        RequestEvent::ExitFlag(false),
        RequestEvent::Timeout,
        RequestEvent::Retryable(asked),
        RequestEvent::Processed,
        RequestEvent::IterationEnded,
        RequestEvent::ExitFlag(false),
        RequestEvent::Disconnected,
    ];
    assert_eq!(actions(run), "flag wait poll process end flag wait stop ");
}

#[test]
fn empty_or_closed_retry_channel_is_ignored() {
    for nothing in [RequestEvent::NoRetryable, RequestEvent::RetryDisconnected] {
        let run = vec![
            RequestEvent::ExitFlag(false),
            RequestEvent::Timeout,
            nothing,
            RequestEvent::IterationEnded,
            RequestEvent::ExitFlag(false),
        ];
        assert_eq!(actions(run), "flag wait poll end flag wait ");
    }
}

#[test]
fn requests_report_after_more_than_two_seconds() {
    let mut stats = BlockIdRepairRequestsStats::default_at(0);
    assert!(stats.report_at(100 * SECOND, 7).is_none());
    stats.count(&BlockIdRepairType::FecSetRoot);
    stats.count(&BlockIdRepairType::ParentAndFecSetCount);
    stats.count(&BlockIdRepairType::FecSetRoot);
    assert!(stats.report_at(3 * SECOND - 1, 7).is_none());
    assert_eq!(stats.total_requests, 3);
    let datapoint = stats.report_at(3 * SECOND, 7).unwrap();
    assert_eq!(datapoint.name, "block_id_repair_requests");
    assert_eq!(
        datapoint.fields,
        vec![
            ("total_requests", 3),
            ("parent_fec_set_count_requests", 1),
            ("fec_set_root_requests", 2),
        ]
    );
    assert_eq!(stats.total_requests, 0);
    assert_eq!(stats.fec_set_root_requests, 0);
    assert_eq!(stats.parent_fec_set_count_requests, 0);
    assert_eq!(stats.last_report, 7);
}

#[test]
fn requests_do_not_report_at_once() {
    let clock = Clock::start();
    let mut stats = BlockIdRepairRequestsStats::default_at(clock.now());
    stats.count(&BlockIdRepairType::FecSetRoot);
    assert!(stats.report(&clock).is_none());
    assert_eq!(stats.total_requests, 1);
}

fn readings(attempt: u128, report: u128, new_start: u128, stamp: u128) -> IterationReadings {
    IterationReadings {
        attempt_checked_at: attempt,
        report_checked_at: report,
        report_stamped_at: new_start,
        attempt_stamped_at: stamp,
    }
}

#[test]
fn iteration_reports_once_in_ten_seconds() {
    let mut state = RequestLoop::new_at(Clock::start(), 0, 0);
    let asked = request(1, 1, BlockIdRepairType::FecSetRoot);
    state.process_block_id_request_at(&asked, true, 0, 0);
    let early = 10 * SECOND - 1;
    assert!(state.end_iteration_at(readings(early, early, 5, 5)).is_none());
    assert_eq!(state.last_stats_report, 0);
    let due = 10 * SECOND;
    let datapoint = state.end_iteration_at(readings(due, due + 1, due + 2, due + 3)).unwrap();
    assert_eq!(datapoint.fields[0], ("total_requests", 1));
    assert_eq!(counters(&state), (0, 0, 0));
    assert_eq!(state.stats.last_report, due + 2);
    assert_eq!(state.last_stats_report, due + 3);
    // an attempt with nothing to report still counts as one
    let later = 21 * SECOND;
    assert!(state.end_iteration_at(readings(later, later, later, later)).is_none());
    assert_eq!(state.last_stats_report, later);
    assert_eq!(state.stats.last_report, due + 2);
}

#[test]
fn report_is_checked_by_a_reading_of_its_own() {
    let due = 10 * SECOND;
    let last_report = due - 3 * SECOND + 1;
    for (report_checked_at, reported) in [(due, false), (due + 1, true)] {
        let mut state = RequestLoop::new_at(Clock::start(), 0, last_report);
        let asked = request(1, 1, BlockIdRepairType::FecSetRoot);
        state.process_block_id_request_at(&asked, true, 0, 0);
        let datapoint = state.end_iteration_at(readings(due, report_checked_at, due, due));
        assert_eq!(datapoint.is_some(), reported);
    }
}

#[test]
fn iteration_does_not_report_at_once() {
    let mut state = RequestLoop::new();
    assert!(state.end_iteration().is_none());
}
