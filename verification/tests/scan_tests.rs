use wit_poller::epochs::EpochConstants;
use wit_poller::records::{DrState, PendingDr};
use wit_poller::scan::{
    run_scan, BlockOutcome, RecordProbe, ReportOutcome, ScanOutput,
};

fn constants() -> EpochConstants {
    EpochConstants { checkpoint_zero_timestamp: 1_602_666_000, checkpoints_period: 45 }
}

fn pending(dr_id: u64, dr_tx_hash: &str, dr_tx_creation_timestamp: i64) -> PendingDr {
    PendingDr {
        dr_id,
        dr_bytes: vec![0xde, 0xad],
        dr_tx_hash: dr_tx_hash.to_string(),
        dr_tx_creation_timestamp,
    }
}

fn probe(report: ReportOutcome, block: BlockOutcome) -> RecordProbe {
    RecordProbe { report, block }
}

fn unused_block() -> BlockOutcome {
    BlockOutcome::CallError { message: "not called".to_string() }
}

#[test]
fn timed_out_record_is_reset_to_new() {
    let records = vec![pending(7, "0xabc", 1000)];
    let probes = vec![probe(
        ReportOutcome::CallError { message: "dr not found".to_string() },
        unused_block(),
    )];
    let out: ScanOutput = run_scan(Some(5000), constants(), 7000, &records, &probes);
    assert_eq!(out.reports.len(), 0);
    assert_eq!(out.resets.len(), 1);
    assert_eq!(out.resets[0].0, 7);
    assert_eq!(out.resets[0].1.dr_state, DrState::New);
    assert_eq!(out.resets[0].1.dr_tx_hash, None);
    assert_eq!(out.resets[0].1.dr_tx_creation_timestamp, None);
    assert_eq!(out.resets[0].1.dr_bytes, vec![0xde, 0xad]);
    assert_eq!(out.processed, 1);
    assert!(!out.aborted);
}

#[test]
fn age_not_exceeding_threshold_skips_record() {
    let records = vec![pending(7, "0xabc", 2000)];
    let probes = vec![probe(
        ReportOutcome::CallError { message: "dr not found".to_string() },
        unused_block(),
    )];
    // age is exactly the threshold: the excess must be strict
    let out = run_scan(Some(5000), constants(), 7000, &records, &probes);
    assert_eq!(out.reports.len(), 0);
    assert_eq!(out.resets.len(), 0);
    assert_eq!(out.processed, 1);
    assert!(!out.aborted);
}

#[test]
fn no_threshold_never_resets() {
    let records = vec![pending(7, "0xabc", 0)];
    let probes = vec![probe(
        ReportOutcome::CallError { message: "dr not found".to_string() },
        unused_block(),
    )];
    let out = run_scan(None, constants(), i64::MAX, &records, &probes);
    assert_eq!(out.reports.len(), 0);
    assert_eq!(out.resets.len(), 0);
    assert_eq!(out.processed, 1);
    assert!(!out.aborted);
}

#[test]
fn resolved_record_yields_report_with_converted_timestamp() {
    let records = vec![pending(9, "0xdef", 1000)];
    let probes = vec![probe(
        ReportOutcome::Resolved {
            result: vec![1, 2, 3],
            block_hash: "0xblk".to_string(),
        },
        BlockOutcome::Block { epoch: 100 },
    )];
    let out = run_scan(Some(5000), constants(), 7000, &records, &probes);
    assert_eq!(out.reports.len(), 1);
    assert_eq!(out.reports[0].dr_id, 9);
    assert_eq!(out.reports[0].timestamp, 1_602_670_500);
    assert_eq!(out.reports[0].dr_tx_hash, "0xdef".to_string());
    assert_eq!(out.reports[0].result, vec![1, 2, 3]);
    assert_eq!(out.resets.len(), 0);
    assert_eq!(out.processed, 1);
    assert!(!out.aborted);
}

#[test]
fn unresolved_record_is_untouched_and_scan_continues() {
    let records = vec![pending(3, "0x03", 1000), pending(9, "0x09", 1000)];
    let probes = vec![
        probe(ReportOutcome::Unresolved, unused_block()),
        probe(
            ReportOutcome::Resolved { result: vec![7], block_hash: "0xblk".to_string() },
            BlockOutcome::Block { epoch: 100 },
        ),
    ];
    let out = run_scan(Some(5000), constants(), 7000, &records, &probes);
    assert_eq!(out.reports.len(), 1);
    assert_eq!(out.reports[0].dr_id, 9);
    assert_eq!(out.resets.len(), 0);
    assert_eq!(out.processed, 2);
    assert!(!out.aborted);
}

#[test]
fn undecodable_response_skips_one_record_only() {
    let records = vec![pending(1, "0x01", 1000), pending(2, "0x02", 1000)];
    let probes = vec![
        probe(ReportOutcome::Undecodable, unused_block()),
        probe(
            ReportOutcome::Resolved { result: vec![9], block_hash: "0xblk".to_string() },
            BlockOutcome::Block { epoch: 0 },
        ),
    ];
    let out = run_scan(Some(5000), constants(), 7000, &records, &probes);
    assert_eq!(out.reports.len(), 1);
    assert_eq!(out.reports[0].dr_id, 2);
    assert_eq!(out.processed, 2);
    assert!(!out.aborted);
}

#[test]
fn transport_failure_aborts_scan_but_keeps_earlier_reports() {
    // five pending records; the third hits a transport timeout
    let records = vec![
        pending(1, "0x01", 1000),
        pending(2, "0x02", 1000),
        pending(5, "0x05", 1000),
        pending(6, "0x06", 1000),
        pending(8, "0x08", 1000),
    ];
    let probes = vec![
        probe(
            ReportOutcome::Resolved { result: vec![1], block_hash: "0xb1".to_string() },
            BlockOutcome::Block { epoch: 1 },
        ),
        probe(
            ReportOutcome::Resolved { result: vec![2], block_hash: "0xb2".to_string() },
            BlockOutcome::Block { epoch: 2 },
        ),
        probe(ReportOutcome::TransportFailure, unused_block()),
        probe(
            ReportOutcome::Resolved { result: vec![6], block_hash: "0xb6".to_string() },
            BlockOutcome::Block { epoch: 6 },
        ),
        probe(
            ReportOutcome::CallError { message: "dr not found".to_string() },
            unused_block(),
        ),
    ];
    let out = run_scan(Some(1), constants(), i64::MAX, &records, &probes);
    // the two reports collected before the failure are still in the batch
    assert_eq!(out.reports.len(), 2);
    assert_eq!(out.reports[0].dr_id, 1);
    assert_eq!(out.reports[1].dr_id, 2);
    // records after the failure are untouched: no report, no reset
    assert_eq!(out.resets.len(), 0);
    assert_eq!(out.processed, 3);
    assert!(out.aborted);
}

#[test]
fn block_transport_failure_also_aborts_scan() {
    let records = vec![pending(4, "0x04", 1000), pending(5, "0x05", 1000)];
    let probes = vec![
        probe(
            ReportOutcome::Resolved { result: vec![4], block_hash: "0xb4".to_string() },
            BlockOutcome::TransportFailure,
        ),
        probe(
            ReportOutcome::Resolved { result: vec![5], block_hash: "0xb5".to_string() },
            BlockOutcome::Block { epoch: 5 },
        ),
    ];
    let out = run_scan(Some(5000), constants(), 7000, &records, &probes);
    assert_eq!(out.reports.len(), 0);
    assert_eq!(out.resets.len(), 0);
    assert_eq!(out.processed, 1);
    assert!(out.aborted);
}

#[test]
fn block_call_error_skips_the_one_record() {
    let records = vec![pending(4, "0x04", 1000), pending(5, "0x05", 1000)];
    let probes = vec![
        probe(
            ReportOutcome::Resolved { result: vec![4], block_hash: "0xb4".to_string() },
            BlockOutcome::CallError { message: "unknown block".to_string() },
        ),
        probe(
            ReportOutcome::Resolved { result: vec![5], block_hash: "0xb5".to_string() },
            BlockOutcome::Block { epoch: 100 },
        ),
    ];
    let out = run_scan(Some(5000), constants(), 7000, &records, &probes);
    assert_eq!(out.reports.len(), 1);
    assert_eq!(out.reports[0].dr_id, 5);
    assert_eq!(out.processed, 2);
    assert!(!out.aborted);
}

#[test]
fn empty_pending_set_yields_empty_batch() {
    let records: Vec<PendingDr> = vec![];
    let probes: Vec<RecordProbe> = vec![];
    let out = run_scan(Some(5000), constants(), 7000, &records, &probes);
    assert_eq!(out.reports.len(), 0);
    assert_eq!(out.resets.len(), 0);
    assert_eq!(out.processed, 0);
    assert!(!out.aborted);
}
