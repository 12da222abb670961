//! The per-record decision logic of one reconciliation scan.
//!
//! The scan itself is driven by a caller that performs the network calls;
//! every outcome comes back as a plain value and every decision is taken
//! here, so the whole decision logic is verified. [`run_scan`] processes a
//! full scan's worth of outcomes and builds the batch of reports and the
//! record resets that one scan disposes.

use vstd::prelude::*;

use crate::epochs::{EpochConstants, convert_block_epoch_to_timestamp, converted_timestamp};
use crate::records::{
    DrInfoBridge, DrInfoBridgeView, DrState, PendingDr, PendingDrView, Report, ReportView,
    reset_to_new,
};

verus! {

/// Outcome of one "resolution report" call for a record's transaction hash.
#[derive(Debug, PartialEq)]
pub enum ReportOutcome {
    /// Connectivity or timeout failure: fatal to the entire scan.
    TransportFailure,
    /// Application-level error from the node, scoped to this record.
    CallError { message: String },
    /// The response arrived but could not be decoded.
    Undecodable,
    /// Success, but the request has no final result yet.
    Unresolved,
    /// Success with a final result and an identifying block reference.
    Resolved { result: Vec<u8>, block_hash: String },
}

/// Mathematical view of [`ReportOutcome`].
pub enum ReportOutcomeView {
    TransportFailure,
    CallError { message: Seq<char> },
    Undecodable,
    Unresolved,
    Resolved { result: Seq<u8>, block_hash: Seq<char> },
}

impl View for ReportOutcome {
    type V = ReportOutcomeView;

    open spec fn view(&self) -> ReportOutcomeView {
        match self {
            ReportOutcome::TransportFailure => ReportOutcomeView::TransportFailure,
            ReportOutcome::CallError { message } => ReportOutcomeView::CallError {
                message: message@,
            },
            ReportOutcome::Undecodable => ReportOutcomeView::Undecodable,
            ReportOutcome::Unresolved => ReportOutcomeView::Unresolved,
            ReportOutcome::Resolved { result, block_hash } => ReportOutcomeView::Resolved {
                result: result@,
                block_hash: block_hash@,
            },
        }
    }
}

/// Outcome of one "get block" call for a block reference.
#[derive(Debug, PartialEq)]
pub enum BlockOutcome {
    /// Connectivity or timeout failure: fatal to the entire scan.
    TransportFailure,
    /// Application-level error from the node, scoped to this record.
    CallError { message: String },
    /// The block was found; its epoch (checkpoint) number.
    Block { epoch: u32 },
}

/// Mathematical view of [`BlockOutcome`].
pub enum BlockOutcomeView {
    TransportFailure,
    CallError { message: Seq<char> },
    Block { epoch: u32 },
}

impl View for BlockOutcome {
    type V = BlockOutcomeView;

    open spec fn view(&self) -> BlockOutcomeView {
        match self {
            BlockOutcome::TransportFailure => BlockOutcomeView::TransportFailure,
            BlockOutcome::CallError { message } => BlockOutcomeView::CallError {
                message: message@,
            },
            BlockOutcome::Block { epoch } => BlockOutcomeView::Block { epoch: *epoch },
        }
    }
}

/// What the scan does with a record after its "resolution report" call.
#[derive(Clone, Copy, PartialEq, Eq, Structural, Debug)]
pub enum RecordAction {
    /// Stop processing further records; flush what was accumulated.
    Abort,
    /// Rewrite the record to `New`, clearing hash and timestamp.
    Reset,
    /// Leave the record untouched and continue with the next one.
    Skip,
    /// Resolve the result's timestamp through the identifying block.
    FetchBlock,
}

/// What the scan does with a record after its "get block" call.
#[derive(Clone, Copy, PartialEq, Eq, Structural, Debug)]
pub enum BlockAction {
    /// Stop processing further records; flush what was accumulated.
    Abort,
    /// Leave the record untouched and continue with the next one.
    Skip,
    /// Append a report with this derived timestamp to the batch.
    Produce { timestamp: u64 },
}

/// The decision taken from a "resolution report" outcome. A transport
/// failure is scan-fatal; an application-level error triggers the reset
/// safety net exactly when a timeout threshold is configured and the
/// record's age strictly exceeds it; an undecodable or unresolved response
/// skips the one record; a resolved result proceeds to the block lookup.
pub open spec fn decide_report_outcome_spec(
    unresolved_timeout_ms: Option<u64>,
    creation_timestamp: int,
    current_timestamp: int,
    outcome: ReportOutcomeView,
) -> RecordAction {
    match outcome {
        ReportOutcomeView::TransportFailure => RecordAction::Abort,
        ReportOutcomeView::CallError { .. } => {
            if unresolved_timeout_ms matches Some(timeout_ms)
                && current_timestamp - creation_timestamp > timeout_ms as int {
                RecordAction::Reset
            } else {
                RecordAction::Skip
            }
        },
        ReportOutcomeView::Undecodable => RecordAction::Skip,
        ReportOutcomeView::Unresolved => RecordAction::Skip,
        ReportOutcomeView::Resolved { .. } => RecordAction::FetchBlock,
    }
}

/// Decide a record's disposition from the outcome of its "resolution
/// report" call.
pub fn decide_report_outcome(
    unresolved_timeout_ms: Option<u64>,
    creation_timestamp: i64,
    current_timestamp: i64,
    outcome: &ReportOutcome,
) -> (action: RecordAction)
    ensures
        action == decide_report_outcome_spec(
            unresolved_timeout_ms,
            creation_timestamp as int,
            current_timestamp as int,
            outcome@,
        ),
{
    match outcome {
        ReportOutcome::TransportFailure => RecordAction::Abort,
        ReportOutcome::CallError { .. } => match unresolved_timeout_ms {
            Some(timeout_ms) => {
                let age: i128 = (current_timestamp as i128) - (creation_timestamp as i128);
                if age > timeout_ms as i128 {
                    RecordAction::Reset
                } else {
                    RecordAction::Skip
                }
            },
            None => RecordAction::Skip,
        },
        ReportOutcome::Undecodable => RecordAction::Skip,
        ReportOutcome::Unresolved => RecordAction::Skip,
        ReportOutcome::Resolved { .. } => RecordAction::FetchBlock,
    }
}

/// The decision taken from a "get block" outcome: a transport failure is
/// scan-fatal, a record-scoped error skips the record, and a block yields a
/// report whose timestamp is the converted epoch.
pub open spec fn decide_block_outcome_spec(
    constants: EpochConstants,
    outcome: BlockOutcomeView,
) -> BlockAction {
    match outcome {
        BlockOutcomeView::TransportFailure => BlockAction::Abort,
        BlockOutcomeView::CallError { .. } => BlockAction::Skip,
        BlockOutcomeView::Block { epoch } => BlockAction::Produce {
            timestamp: converted_timestamp(constants, epoch),
        },
    }
}

/// Decide a record's disposition from the outcome of its "get block" call.
pub fn decide_block_outcome(constants: EpochConstants, outcome: &BlockOutcome) -> (action:
    BlockAction)
    ensures
        action == decide_block_outcome_spec(constants, outcome@),
{
    match outcome {
        BlockOutcome::TransportFailure => BlockAction::Abort,
        BlockOutcome::CallError { .. } => BlockAction::Skip,
        BlockOutcome::Block { epoch } => BlockAction::Produce {
            timestamp: convert_block_epoch_to_timestamp(constants, *epoch),
        },
    }
}

/// The outcomes the network yielded for one record: the "resolution report"
/// call, and — read only when that call resolved the record — the "get
/// block" call for the identifying block reference.
#[derive(Debug, PartialEq)]
pub struct RecordProbe {
    pub report: ReportOutcome,
    pub block: BlockOutcome,
}

/// Mathematical view of [`RecordProbe`].
pub struct RecordProbeView {
    pub report: ReportOutcomeView,
    pub block: BlockOutcomeView,
}

impl View for RecordProbe {
    type V = RecordProbeView;

    open spec fn view(&self) -> RecordProbeView {
        RecordProbeView { report: self.report@, block: self.block@ }
    }
}

/// The scan parameters that every per-record decision reads: the optional
/// unresolved-timeout threshold, the epoch constants, and the timestamp the
/// scan started with.
pub struct ScanEnv {
    pub unresolved_timeout_ms: Option<u64>,
    pub constants: EpochConstants,
    pub now: int,
}

/// What one scan does to one record: exactly one of these.
#[derive(Clone, Copy, PartialEq, Eq, Structural, Debug)]
pub enum Disposition {
    /// A report for the record entered the batch.
    Reported,
    /// A reset-to-`New` rewrite was issued for the record.
    ResetIssued,
    /// Nothing: the record is untouched and retried on a later scan.
    Untouched,
}

/// The single disposition a scan gives one record.
pub open spec fn record_disposition(
    env: ScanEnv,
    record: PendingDrView,
    probe: RecordProbeView,
) -> Disposition {
    match decide_report_outcome_spec(
        env.unresolved_timeout_ms,
        record.dr_tx_creation_timestamp as int,
        env.now,
        probe.report,
    ) {
        RecordAction::Abort => Disposition::Untouched,
        RecordAction::Reset => Disposition::ResetIssued,
        RecordAction::Skip => Disposition::Untouched,
        RecordAction::FetchBlock => match decide_block_outcome_spec(env.constants, probe.block) {
            BlockAction::Produce { .. } => Disposition::Reported,
            _ => Disposition::Untouched,
        },
    }
}

/// Whether processing this record ends the scan: a transport failure on
/// either of its two calls.
pub open spec fn record_aborts(env: ScanEnv, record: PendingDrView, probe: RecordProbeView) -> bool {
    let action = decide_report_outcome_spec(
        env.unresolved_timeout_ms,
        record.dr_tx_creation_timestamp as int,
        env.now,
        probe.report,
    );
    ||| action is Abort
    ||| (action is FetchBlock && decide_block_outcome_spec(env.constants, probe.block) is Abort)
}

/// The report a `Reported` record contributes to the batch. Its timestamp
/// derives from the block that included the data request, as an
/// approximation of the block that first committed to it.
pub open spec fn report_of(
    constants: EpochConstants,
    record: PendingDrView,
    probe: RecordProbeView,
) -> ReportView {
    ReportView {
        dr_id: record.dr_id,
        timestamp: decide_block_outcome_spec(constants, probe.block)->timestamp,
        dr_tx_hash: record.dr_tx_hash,
        result: probe.report->result,
    }
}

/// The rewrite a `ResetIssued` record receives: back to `New`, hash and
/// timestamp cleared, payload unchanged.
pub open spec fn reset_info_of(record: PendingDrView) -> DrInfoBridgeView {
    DrInfoBridgeView {
        dr_bytes: record.dr_bytes,
        dr_state: DrState::New,
        dr_tx_hash: None,
        dr_tx_creation_timestamp: None,
    }
}

/// Index just past the last record the scan examines, starting from `i`:
/// records are processed in order until one aborts the scan or the set is
/// exhausted.
pub open spec fn scan_processed_from(
    env: ScanEnv,
    records: Seq<PendingDrView>,
    probes: Seq<RecordProbeView>,
    i: int,
) -> int
    decreases records.len() - i,
    when 0 <= i <= records.len()
{
    if i >= records.len() {
        i
    } else if record_aborts(env, records[i], probes[i]) {
        i + 1
    } else {
        scan_processed_from(env, records, probes, i + 1)
    }
}

/// Whether the scan, starting from `i`, ends in an abort.
pub open spec fn scan_aborted_from(
    env: ScanEnv,
    records: Seq<PendingDrView>,
    probes: Seq<RecordProbeView>,
    i: int,
) -> bool
    decreases records.len() - i,
    when 0 <= i <= records.len()
{
    if i >= records.len() {
        false
    } else if record_aborts(env, records[i], probes[i]) {
        true
    } else {
        scan_aborted_from(env, records, probes, i + 1)
    }
}

/// The batch of reports the scan accumulates, in record order, starting
/// from `i`.
pub open spec fn scan_reports_from(
    env: ScanEnv,
    records: Seq<PendingDrView>,
    probes: Seq<RecordProbeView>,
    i: int,
) -> Seq<ReportView>
    decreases records.len() - i,
    when 0 <= i <= records.len()
{
    if i >= records.len() {
        Seq::empty()
    } else if record_aborts(env, records[i], probes[i]) {
        Seq::empty()
    } else {
        let rest = scan_reports_from(env, records, probes, i + 1);
        if record_disposition(env, records[i], probes[i]) is Reported {
            seq![report_of(env.constants, records[i], probes[i])] + rest
        } else {
            rest
        }
    }
}

/// The reset rewrites the scan issues, in record order, starting from `i`.
pub open spec fn scan_resets_from(
    env: ScanEnv,
    records: Seq<PendingDrView>,
    probes: Seq<RecordProbeView>,
    i: int,
) -> Seq<(u64, DrInfoBridgeView)>
    decreases records.len() - i,
    when 0 <= i <= records.len()
{
    if i >= records.len() {
        Seq::empty()
    } else if record_aborts(env, records[i], probes[i]) {
        Seq::empty()
    } else {
        let rest = scan_resets_from(env, records, probes, i + 1);
        if record_disposition(env, records[i], probes[i]) is ResetIssued {
            seq![(records[i].dr_id, reset_info_of(records[i]))] + rest
        } else {
            rest
        }
    }
}

/// Views of a fetched record set.
pub open spec fn pending_views(records: Seq<PendingDr>) -> Seq<PendingDrView> {
    records.map_values(|r: PendingDr| r@)
}

/// Views of a scan's probed outcomes.
pub open spec fn probe_views(probes: Seq<RecordProbe>) -> Seq<RecordProbeView> {
    probes.map_values(|p: RecordProbe| p@)
}

/// Views of an accumulated report batch.
pub open spec fn report_views(reports: Seq<Report>) -> Seq<ReportView> {
    reports.map_values(|r: Report| r@)
}

/// Views of the accumulated reset rewrites.
pub open spec fn reset_views(resets: Seq<(u64, DrInfoBridge)>) -> Seq<(u64, DrInfoBridgeView)> {
    resets.map_values(|p: (u64, DrInfoBridge)| (p.0, p.1@))
}

/// Everything one scan decided: the report batch to hand to the reporter
/// (possibly empty, delivered even when the scan aborted), the reset
/// rewrites to issue to the store, how many records were examined, and
/// whether the scan ended in a transport abort.
#[derive(Debug, PartialEq)]
pub struct ScanOutput {
    pub reports: Vec<Report>,
    pub resets: Vec<(u64, DrInfoBridge)>,
    pub processed: usize,
    pub aborted: bool,
}

/// Process one full scan's worth of call outcomes: for each record in
/// order, decide its single disposition from the probed outcomes, stopping
/// at the first transport failure but keeping everything accumulated so
/// far.
#[verifier::loop_isolation(false)]
pub fn run_scan(
    unresolved_timeout_ms: Option<u64>,
    constants: EpochConstants,
    current_timestamp: i64,
    records: &Vec<PendingDr>,
    probes: &Vec<RecordProbe>,
) -> (out: ScanOutput)
    requires
        probes@.len() == records@.len(),
    ensures
        ({
            let env = ScanEnv {
                unresolved_timeout_ms,
                constants,
                now: current_timestamp as int,
            };
            let rv = pending_views(records@);
            let pv = probe_views(probes@);
            &&& report_views(out.reports@) == scan_reports_from(env, rv, pv, 0)
            &&& reset_views(out.resets@) == scan_resets_from(env, rv, pv, 0)
            &&& out.processed == scan_processed_from(env, rv, pv, 0)
            &&& out.aborted == scan_aborted_from(env, rv, pv, 0)
            &&& forall|j: int|
                0 <= j < out.resets@.len() ==> (#[trigger] out.resets@[j].1)@.wf()
                    && out.resets@[j].1@.dr_state == DrState::New
        }),
{
    let ghost env = ScanEnv { unresolved_timeout_ms, constants, now: current_timestamp as int };
    let ghost rv = pending_views(records@);
    let ghost pv = probe_views(probes@);
    let n: usize = records.len();
    let mut reports: Vec<Report> = Vec::new();
    let mut resets: Vec<(u64, DrInfoBridge)> = Vec::new();
    let mut i: usize = 0;
    let mut aborted: bool = false;
    while i < n && !aborted
        invariant
            0 <= i <= n,
            !aborted ==> {
                &&& scan_reports_from(env, rv, pv, 0) == report_views(reports@) + scan_reports_from(
                    env,
                    rv,
                    pv,
                    i as int,
                )
                &&& scan_resets_from(env, rv, pv, 0) == reset_views(resets@) + scan_resets_from(
                    env,
                    rv,
                    pv,
                    i as int,
                )
                &&& scan_processed_from(env, rv, pv, 0) == scan_processed_from(env, rv, pv, i as int)
                &&& scan_aborted_from(env, rv, pv, 0) == scan_aborted_from(env, rv, pv, i as int)
            },
            aborted ==> {
                &&& report_views(reports@) == scan_reports_from(env, rv, pv, 0)
                &&& reset_views(resets@) == scan_resets_from(env, rv, pv, 0)
                &&& i == scan_processed_from(env, rv, pv, 0)
                &&& scan_aborted_from(env, rv, pv, 0)
            },
            forall|j: int|
                0 <= j < resets@.len() ==> (#[trigger] resets@[j].1)@.wf() && resets@[j].1@.dr_state
                    == DrState::New,
        decreases n - i,
    {
        let record = &records[i];
        let probe = &probes[i];
        proof {
            assert(rv[i as int] == record@);
            assert(pv[i as int] == probe@);
        }
        let ghost reports_before = reports@;
        let ghost resets_before = resets@;
        let action = decide_report_outcome(
            unresolved_timeout_ms,
            record.dr_tx_creation_timestamp,
            current_timestamp,
            &probe.report,
        );
        match action {
            RecordAction::Abort => {
                aborted = true;
            },
            RecordAction::Reset => {
                let info = reset_to_new(record.dr_bytes.clone());
                resets.push((record.dr_id, info));
                proof {
                    assert(info@ =~= reset_info_of(rv[i as int]));
                    assert(reset_views(resets@) =~= reset_views(resets_before) + seq![
                        (rv[i as int].dr_id, reset_info_of(rv[i as int])),
                    ]);
                }
            },
            RecordAction::Skip => {},
            RecordAction::FetchBlock => {
                match decide_block_outcome(constants, &probe.block) {
                    BlockAction::Abort => {
                        aborted = true;
                    },
                    BlockAction::Skip => {},
                    BlockAction::Produce { timestamp } => {
                        if let ReportOutcome::Resolved { result, block_hash: _ } = &probe.report {
                            let report = Report {
                                dr_id: record.dr_id,
                                timestamp,
                                dr_tx_hash: record.dr_tx_hash.clone(),
                                result: result.clone(),
                            };
                            proof {
                                assert(report@ =~= report_of(constants, rv[i as int], pv[i as int]));
                            }
                            reports.push(report);
                            proof {
                                assert(report_views(reports@) =~= report_views(reports_before)
                                    + seq![report_of(constants, rv[i as int], pv[i as int])]);
                            }
                        } else {
                            proof {
                                assert(false);
                            }
                        }
                    },
                }
            },
        }
        proof {
            let j = i as int;
            assert(scan_reports_from(env, rv, pv, j) == if record_aborts(env, rv[j], pv[j]) {
                Seq::<ReportView>::empty()
            } else {
                if record_disposition(env, rv[j], pv[j]) is Reported {
                    seq![report_of(env.constants, rv[j], pv[j])] + scan_reports_from(
                        env,
                        rv,
                        pv,
                        j + 1,
                    )
                } else {
                    scan_reports_from(env, rv, pv, j + 1)
                }
            });
            if aborted {
                assert(report_views(reports@) =~= scan_reports_from(env, rv, pv, 0));
                assert(reset_views(resets@) =~= scan_resets_from(env, rv, pv, 0));
            } else {
                assert(scan_reports_from(env, rv, pv, 0) =~= report_views(reports@)
                    + scan_reports_from(env, rv, pv, j + 1));
                assert(scan_resets_from(env, rv, pv, 0) =~= reset_views(resets@)
                    + scan_resets_from(env, rv, pv, j + 1));
            }
        }
        i = i + 1;
    }
    proof {
        if !aborted {
            assert(scan_reports_from(env, rv, pv, n as int) =~= Seq::<ReportView>::empty());
            assert(report_views(reports@) =~= scan_reports_from(env, rv, pv, 0));
            assert(reset_views(resets@) =~= scan_resets_from(env, rv, pv, 0));
        }
    }
    ScanOutput { reports, resets, processed: i, aborted }
}

/// Law: reset-to-`New` fires if and only if a timeout threshold is
/// configured and the record's age strictly exceeds it while the record
/// yields an application-level (non-transport) error; with no threshold
/// configured, reset never fires, regardless of age.
pub proof fn lemma_reset_iff_timed_out(
    unresolved_timeout_ms: Option<u64>,
    creation_timestamp: int,
    current_timestamp: int,
    outcome: ReportOutcomeView,
)
    ensures
        decide_report_outcome_spec(
            unresolved_timeout_ms,
            creation_timestamp,
            current_timestamp,
            outcome,
        ) is Reset <==> (outcome is CallError && (unresolved_timeout_ms matches Some(timeout_ms)
            && current_timestamp - creation_timestamp > timeout_ms as int)),
        unresolved_timeout_ms is None ==> !(decide_report_outcome_spec(
            unresolved_timeout_ms,
            creation_timestamp,
            current_timestamp,
            outcome,
        ) is Reset),
{
}

/// Whether a batch holds a report for this request id.
pub open spec fn has_report_for(reports: Seq<ReportView>, dr_id: u64) -> bool {
    exists|j: int| 0 <= j < reports.len() && (#[trigger] reports[j]).dr_id == dr_id
}

/// Whether the issued rewrites hold a reset for this request id.
pub open spec fn has_reset_for(resets: Seq<(u64, DrInfoBridgeView)>, dr_id: u64) -> bool {
    exists|j: int| 0 <= j < resets.len() && (#[trigger] resets[j]).0 == dr_id
}

proof fn lemma_has_report_cons(x: ReportView, rest: Seq<ReportView>, dr_id: u64)
    ensures
        has_report_for(seq![x] + rest, dr_id) <==> (x.dr_id == dr_id || has_report_for(
            rest,
            dr_id,
        )),
{
    let s = seq![x] + rest;
    assert(s[0] == x);
    assert(forall|j: int| 0 <= j < rest.len() ==> s[j + 1] == #[trigger] rest[j]);
    if has_report_for(s, dr_id) {
        let j = choose|j: int| 0 <= j < s.len() && (#[trigger] s[j]).dr_id == dr_id;
        if j > 0 {
            assert(rest[j - 1].dr_id == dr_id);
        }
    }
    if has_report_for(rest, dr_id) {
        let j = choose|j: int| 0 <= j < rest.len() && (#[trigger] rest[j]).dr_id == dr_id;
        assert(s[j + 1].dr_id == dr_id);
    }
    if x.dr_id == dr_id {
        assert(s[0].dr_id == dr_id);
    }
}

proof fn lemma_has_reset_cons(x: (u64, DrInfoBridgeView), rest: Seq<(u64, DrInfoBridgeView)>, dr_id: u64)
    ensures
        has_reset_for(seq![x] + rest, dr_id) <==> (x.0 == dr_id || has_reset_for(rest, dr_id)),
{
    let s = seq![x] + rest;
    assert(s[0] == x);
    assert(forall|j: int| 0 <= j < rest.len() ==> s[j + 1] == #[trigger] rest[j]);
    if has_reset_for(s, dr_id) {
        let j = choose|j: int| 0 <= j < s.len() && (#[trigger] s[j]).0 == dr_id;
        if j > 0 {
            assert(rest[j - 1].0 == dr_id);
        }
    }
    if has_reset_for(rest, dr_id) {
        let j = choose|j: int| 0 <= j < rest.len() && (#[trigger] rest[j]).0 == dr_id;
        assert(s[j + 1].0 == dr_id);
    }
    if x.0 == dr_id {
        assert(s[0].0 == dr_id);
    }
}

/// The scan examines at least the records before `i` and never more than
/// the whole set.
pub proof fn lemma_processed_bounds(
    env: ScanEnv,
    records: Seq<PendingDrView>,
    probes: Seq<RecordProbeView>,
    i: int,
)
    requires
        probes.len() == records.len(),
        0 <= i <= records.len(),
    ensures
        i <= scan_processed_from(env, records, probes, i) <= records.len(),
    decreases records.len() - i,
{
    if i < records.len() && !record_aborts(env, records[i], probes[i]) {
        lemma_processed_bounds(env, records, probes, i + 1);
    }
}

/// A record that aborts the scan is itself left untouched.
pub proof fn lemma_aborting_record_untouched(
    env: ScanEnv,
    record: PendingDrView,
    probe: RecordProbeView,
)
    requires
        record_aborts(env, record, probe),
    ensures
        record_disposition(env, record, probe) is Untouched,
{
}

proof fn lemma_scan_reports_membership(
    env: ScanEnv,
    records: Seq<PendingDrView>,
    probes: Seq<RecordProbeView>,
    i: int,
    dr_id: u64,
)
    requires
        probes.len() == records.len(),
        0 <= i <= records.len(),
    ensures
        has_report_for(scan_reports_from(env, records, probes, i), dr_id) <==> (exists|k: int|
            i <= k < scan_processed_from(env, records, probes, i) && records[k].dr_id == dr_id
                && #[trigger] record_disposition(env, records[k], probes[k]) is Reported),
    decreases records.len() - i,
{
    let p = scan_processed_from(env, records, probes, i);
    if i >= records.len() {
    } else if record_aborts(env, records[i], probes[i]) {
        lemma_aborting_record_untouched(env, records[i], probes[i]);
    } else {
        lemma_scan_reports_membership(env, records, probes, i + 1, dr_id);
        lemma_processed_bounds(env, records, probes, i + 1);
        let p1 = scan_processed_from(env, records, probes, i + 1);
        let rest = scan_reports_from(env, records, probes, i + 1);
        let d = record_disposition(env, records[i], probes[i]);
        if d is Reported {
            lemma_has_report_cons(report_of(env.constants, records[i], probes[i]), rest, dr_id);
        }
        if exists|k: int|
            i <= k < p && records[k].dr_id == dr_id && #[trigger] record_disposition(
                env,
                records[k],
                probes[k],
            ) is Reported {
            let k = choose|k: int|
                i <= k < p && records[k].dr_id == dr_id && #[trigger] record_disposition(
                    env,
                    records[k],
                    probes[k],
                ) is Reported;
            if k == i {
                assert(has_report_for(scan_reports_from(env, records, probes, i), dr_id));
            } else {
                assert(exists|k2: int|
                    i + 1 <= k2 < p1 && records[k2].dr_id == dr_id
                        && #[trigger] record_disposition(env, records[k2], probes[k2]) is Reported);
            }
        }
        if has_report_for(rest, dr_id) {
            let k = choose|k2: int|
                i + 1 <= k2 < p1 && records[k2].dr_id == dr_id && #[trigger] record_disposition(
                    env,
                    records[k2],
                    probes[k2],
                ) is Reported;
            assert(i <= k < p && records[k].dr_id == dr_id && record_disposition(
                env,
                records[k],
                probes[k],
            ) is Reported);
        }
        if d is Reported && records[i].dr_id == dr_id {
            assert(i <= i < p && records[i].dr_id == dr_id && record_disposition(
                env,
                records[i],
                probes[i],
            ) is Reported);
        }
    }
}

proof fn lemma_scan_resets_membership(
    env: ScanEnv,
    records: Seq<PendingDrView>,
    probes: Seq<RecordProbeView>,
    i: int,
    dr_id: u64,
)
    requires
        probes.len() == records.len(),
        0 <= i <= records.len(),
    ensures
        has_reset_for(scan_resets_from(env, records, probes, i), dr_id) <==> (exists|k: int|
            i <= k < scan_processed_from(env, records, probes, i) && records[k].dr_id == dr_id
                && #[trigger] record_disposition(env, records[k], probes[k]) is ResetIssued),
    decreases records.len() - i,
{
    let p = scan_processed_from(env, records, probes, i);
    if i >= records.len() {
    } else if record_aborts(env, records[i], probes[i]) {
        lemma_aborting_record_untouched(env, records[i], probes[i]);
    } else {
        lemma_scan_resets_membership(env, records, probes, i + 1, dr_id);
        lemma_processed_bounds(env, records, probes, i + 1);
        let p1 = scan_processed_from(env, records, probes, i + 1);
        let rest = scan_resets_from(env, records, probes, i + 1);
        let d = record_disposition(env, records[i], probes[i]);
        if d is ResetIssued {
            lemma_has_reset_cons((records[i].dr_id, reset_info_of(records[i])), rest, dr_id);
        }
        if exists|k: int|
            i <= k < p && records[k].dr_id == dr_id && #[trigger] record_disposition(
                env,
                records[k],
                probes[k],
            ) is ResetIssued {
            let k = choose|k: int|
                i <= k < p && records[k].dr_id == dr_id && #[trigger] record_disposition(
                    env,
                    records[k],
                    probes[k],
                ) is ResetIssued;
            if k == i {
                assert(has_reset_for(scan_resets_from(env, records, probes, i), dr_id));
            } else {
                assert(exists|k2: int|
                    i + 1 <= k2 < p1 && records[k2].dr_id == dr_id
                        && #[trigger] record_disposition(env, records[k2], probes[k2]) is ResetIssued);
            }
        }
        if has_reset_for(rest, dr_id) {
            let k = choose|k2: int|
                i + 1 <= k2 < p1 && records[k2].dr_id == dr_id && #[trigger] record_disposition(
                    env,
                    records[k2],
                    probes[k2],
                ) is ResetIssued;
            assert(i <= k < p && records[k].dr_id == dr_id && record_disposition(
                env,
                records[k],
                probes[k],
            ) is ResetIssued);
        }
        if d is ResetIssued && records[i].dr_id == dr_id {
            assert(i <= i < p && records[i].dr_id == dr_id && record_disposition(
                env,
                records[i],
                probes[i],
            ) is ResetIssued);
        }
    }
}

/// Law: for every pending record scanned, exactly one of report produced,
/// reset-to-`New` issued, or no change occurs — never two. The batch holds
/// a report for the record's id exactly when its disposition is `Reported`
/// and it was examined; a reset is issued exactly when its disposition is
/// `ResetIssued`; and the two never happen together.
pub proof fn lemma_exactly_one_disposition(
    env: ScanEnv,
    records: Seq<PendingDrView>,
    probes: Seq<RecordProbeView>,
    i: int,
)
    requires
        probes.len() == records.len(),
        forall|j: int, k: int|
            0 <= j < records.len() && 0 <= k < records.len() && (#[trigger] records[j]).dr_id == (
            #[trigger] records[k]).dr_id ==> j == k,
        0 <= i < records.len(),
    ensures
        ({
            let reports = scan_reports_from(env, records, probes, 0);
            let resets = scan_resets_from(env, records, probes, 0);
            let processed = scan_processed_from(env, records, probes, 0);
            let dr_id = records[i].dr_id;
            &&& !(has_report_for(reports, dr_id) && has_reset_for(resets, dr_id))
            &&& (has_report_for(reports, dr_id) <==> (i < processed && record_disposition(
                env,
                records[i],
                probes[i],
            ) is Reported))
            &&& (has_reset_for(resets, dr_id) <==> (i < processed && record_disposition(
                env,
                records[i],
                probes[i],
            ) is ResetIssued))
        }),
{
    let dr_id = records[i].dr_id;
    let p = scan_processed_from(env, records, probes, 0);
    lemma_scan_reports_membership(env, records, probes, 0, dr_id);
    lemma_scan_resets_membership(env, records, probes, 0, dr_id);
    lemma_processed_bounds(env, records, probes, 0);
    if has_report_for(scan_reports_from(env, records, probes, 0), dr_id) {
        let k = choose|k: int|
            0 <= k < p && records[k].dr_id == dr_id && #[trigger] record_disposition(
                env,
                records[k],
                probes[k],
            ) is Reported;
        assert(k == i);
    }
    if has_reset_for(scan_resets_from(env, records, probes, 0), dr_id) {
        let k = choose|k: int|
            0 <= k < p && records[k].dr_id == dr_id && #[trigger] record_disposition(
                env,
                records[k],
                probes[k],
            ) is ResetIssued;
        assert(k == i);
    }
    if i < p && record_disposition(env, records[i], probes[i]) is Reported {
        assert(0 <= i < p && records[i].dr_id == dr_id && record_disposition(
            env,
            records[i],
            probes[i],
        ) is Reported);
    }
    if i < p && record_disposition(env, records[i], probes[i]) is ResetIssued {
        assert(0 <= i < p && records[i].dr_id == dr_id && record_disposition(
            env,
            records[i],
            probes[i],
        ) is ResetIssued);
    }
}

proof fn lemma_processed_at_abort(
    env: ScanEnv,
    records: Seq<PendingDrView>,
    probes: Seq<RecordProbeView>,
    i: int,
    k: int,
)
    requires
        probes.len() == records.len(),
        0 <= i <= k < records.len(),
        record_aborts(env, records[k], probes[k]),
        forall|j: int| i <= j < k ==> !record_aborts(env, #[trigger] records[j], probes[j]),
    ensures
        scan_processed_from(env, records, probes, i) == k + 1,
        scan_aborted_from(env, records, probes, i),
    decreases k - i,
{
    if i < k {
        lemma_processed_at_abort(env, records, probes, i + 1, k);
    }
}

/// Law: a transport failure while processing record `k` aborts processing
/// of the records after `k`, which contribute neither report nor reset —
/// but a report already collected for any earlier record is still in the
/// delivered batch.
pub proof fn lemma_abort_flushes_earlier_reports(
    env: ScanEnv,
    records: Seq<PendingDrView>,
    probes: Seq<RecordProbeView>,
    k: int,
)
    requires
        probes.len() == records.len(),
        forall|j1: int, j2: int|
            0 <= j1 < records.len() && 0 <= j2 < records.len() && (#[trigger] records[j1]).dr_id
                == (#[trigger] records[j2]).dr_id ==> j1 == j2,
        0 <= k < records.len(),
        record_aborts(env, records[k], probes[k]),
        forall|j: int| 0 <= j < k ==> !record_aborts(env, #[trigger] records[j], probes[j]),
    ensures
        scan_processed_from(env, records, probes, 0) == k + 1,
        scan_aborted_from(env, records, probes, 0),
        !has_report_for(scan_reports_from(env, records, probes, 0), records[k].dr_id)
            && !has_reset_for(scan_resets_from(env, records, probes, 0), records[k].dr_id),
        forall|j: int|
            k < j < records.len() ==> !has_report_for(
                scan_reports_from(env, records, probes, 0),
                (#[trigger] records[j]).dr_id,
            ) && !has_reset_for(scan_resets_from(env, records, probes, 0), records[j].dr_id),
        forall|j: int|
            0 <= j < k && #[trigger] record_disposition(env, records[j], probes[j]) is Reported
                ==> has_report_for(scan_reports_from(env, records, probes, 0), records[j].dr_id),
{
    lemma_processed_at_abort(env, records, probes, 0, k);
    lemma_aborting_record_untouched(env, records[k], probes[k]);
    lemma_exactly_one_disposition(env, records, probes, k);
    assert forall|j: int|
        k < j < records.len() implies !has_report_for(
        scan_reports_from(env, records, probes, 0),
        (#[trigger] records[j]).dr_id,
    ) && !has_reset_for(scan_resets_from(env, records, probes, 0), records[j].dr_id) by {
        lemma_exactly_one_disposition(env, records, probes, j);
    }
    assert forall|j: int|
        0 <= j < k && #[trigger] record_disposition(env, records[j], probes[j]) is Reported
        implies has_report_for(
        scan_reports_from(env, records, probes, 0),
        records[j].dr_id,
    ) by {
        lemma_exactly_one_disposition(env, records, probes, j);
    }
}

} // verus!
