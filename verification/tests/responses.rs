use block_repair::block_id_repair::{BlockIdRepairResponse, BlockIdRepairResponsesStats};
use block_repair::clock::Clock;
use block_repair::response_loop::{
    deserialize_response, ResponseAction, ResponseEvent, ResponseLoop,
};

const SECOND: u128 = 1_000_000_000;

#[test]
fn no_packet_is_recognised() {
    assert_eq!(deserialize_response(&vec![]), None);
    assert_eq!(deserialize_response(&vec![0, 1, 2, 3]), None);
}

#[test]
fn packets_count_as_invalid() {
    let mut stats = BlockIdRepairResponsesStats::default();
    let batches = vec![
        vec![vec![1u8], vec![2, 3]],
        vec![],
        vec![vec![]],
    ];
    stats.process_block_id_repair_responses(&batches);
    assert_eq!(stats.total_packets, 3);
    assert_eq!(stats.invalid_packets, 3);
    assert_eq!(stats.processed, 0);
    assert_eq!(stats.dropped_packets, 0);
    stats.process_block_id_repair_responses(&[vec![vec![9]]]);
    assert_eq!(stats.total_packets, 4);
    assert_eq!(stats.invalid_packets, 4);
}

#[test]
fn responses_are_counted_by_kind() {
    let mut stats = BlockIdRepairResponsesStats::default();
    stats.count_response(Some(BlockIdRepairResponse::FecSetRoot));
    stats.count_response(Some(BlockIdRepairResponse::ParentFecSetCount));
    stats.count_response(Some(BlockIdRepairResponse::FecSetRoot));
    stats.count_response(None);
    assert_eq!(stats.processed, 3);
    assert_eq!(stats.fec_set_root_responses, 2);
    assert_eq!(stats.parent_fec_set_count_responses, 1);
    assert_eq!(stats.invalid_packets, 1);
    assert_eq!(stats.total_packets, 0);
}

#[test]
fn responses_report_resets_the_counters() {
    let mut stats = BlockIdRepairResponsesStats::default();
    stats.process_block_id_repair_responses(&[vec![vec![1u8], vec![2]]]);
    stats.count_response(Some(BlockIdRepairResponse::FecSetRoot));
    let datapoint = stats.report();
    assert_eq!(datapoint.name, "block_id_repair_responses");
    assert_eq!(
        datapoint.fields,
        vec![
            ("total_packets", 2),
            ("processed", 1),
            ("dropped_packets", 0),
            ("invalid_packets", 2),
            ("parent_fec_set_count_responses", 0),
            ("fec_set_root_responses", 1),
        ]
    );
    let empty = stats.report();
    assert!(empty.fields.iter().all(|field| field.1 == 0));
}

#[test]
fn listener_reports_on_timeout_once_in_ten_seconds() {
    let mut state = ResponseLoop::new_at(Clock::start(), 0);
    let batch = vec![vec![1u8], vec![2]];
    assert!(matches!(
        state.step_at(ResponseEvent::Received(batch), 100 * SECOND, 1),
        ResponseAction::Continue(None)
    ));
    assert_eq!(state.stats.total_packets, 2);
    assert_eq!(state.last_stats_report, 0);
    assert!(matches!(
        state.step_at(ResponseEvent::Timeout, 10 * SECOND - 1, 1),
        ResponseAction::Continue(None)
    ));
    match state.step_at(ResponseEvent::Timeout, 10 * SECOND, 77) {
        ResponseAction::Continue(Some(datapoint)) => {
            assert_eq!(datapoint.fields[0], ("total_packets", 2))
        }
        _ => panic!("no report"),
    }
    assert_eq!(state.stats.total_packets, 0);
    assert_eq!(state.last_stats_report, 77);
    assert!(matches!(
        state.step_at(ResponseEvent::Disconnected, 100 * SECOND, 1),
        ResponseAction::Stop
    ));
}

#[test]
fn listener_waits_unless_told_to_end() {
    let mut state = ResponseLoop::new_at(Clock::start(), 0);
    assert!(matches!(
        state.step_at(ResponseEvent::ExitFlag(false), 100 * SECOND, 1),
        ResponseAction::Wait(200)
    ));
    assert!(matches!(
        state.step_at(ResponseEvent::ExitFlag(true), 100 * SECOND, 1),
        ResponseAction::Stop
    ));
    assert_eq!(state.last_stats_report, 0);
}

#[test]
fn listener_does_not_report_at_once() {
    let mut state = ResponseLoop::new();
    assert!(matches!(
        state.step(ResponseEvent::Timeout),
        ResponseAction::Continue(None)
    ));
    assert!(matches!(
        state.step(ResponseEvent::Received(vec![vec![1]])),
        ResponseAction::Continue(None)
    ));
    assert_eq!(state.stats.invalid_packets, 1);
    assert!(matches!(
        state.step(ResponseEvent::Disconnected),
        ResponseAction::Stop
    ));
}
