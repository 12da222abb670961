//! Data-request records as the bridge sees them, and the reports a scan
//! produces.

use vstd::prelude::*;

verus! {

/// Lifecycle state of a data-request record. Records are created upstream in
/// state `New`; submission for resolution moves them to `Pending` outside
/// this core; the core may reset a record back to `New` on the timeout
/// recovery path.
#[derive(Clone, Copy, PartialEq, Eq, Structural, Debug)]
pub enum DrState {
    /// Not (or no longer) submitted for resolution.
    New,
    /// Submitted for resolution: transaction hash and creation timestamp set.
    Pending,
}

/// Mathematical view of [`DrInfoBridge`].
#[verifier::ext_equal]
pub struct DrInfoBridgeView {
    pub dr_bytes: Seq<u8>,
    pub dr_state: DrState,
    pub dr_tx_hash: Option<Seq<char>>,
    pub dr_tx_creation_timestamp: Option<i64>,
}

impl DrInfoBridgeView {
    /// Invariant: the transaction hash and the creation timestamp describe
    /// one submission together — both present or both absent.
    pub open spec fn wf(self) -> bool {
        self.dr_tx_hash is Some <==> self.dr_tx_creation_timestamp is Some
    }
}

/// The bridge-visible fields of one data-request record: the opaque
/// serialized request payload (passed through unchanged), the lifecycle
/// state, and — when the record has been submitted — the destination-chain
/// transaction hash and its creation timestamp.
#[derive(Debug, PartialEq)]
pub struct DrInfoBridge {
    /// Opaque serialized request payload, owned by the store.
    pub dr_bytes: Vec<u8>,
    /// Current lifecycle state.
    pub dr_state: DrState,
    /// Transaction hash of the last submission, if any.
    pub dr_tx_hash: Option<String>,
    /// Creation timestamp of the last submission, if any, in milliseconds.
    pub dr_tx_creation_timestamp: Option<i64>,
}

impl View for DrInfoBridge {
    type V = DrInfoBridgeView;

    open spec fn view(&self) -> DrInfoBridgeView {
        DrInfoBridgeView {
            dr_bytes: self.dr_bytes@,
            dr_state: self.dr_state,
            dr_tx_hash: match self.dr_tx_hash {
                Some(h) => Some(h@),
                None => None,
            },
            dr_tx_creation_timestamp: self.dr_tx_creation_timestamp,
        }
    }
}

/// Mathematical view of [`PendingDr`].
#[verifier::ext_equal]
pub struct PendingDrView {
    pub dr_id: u64,
    pub dr_bytes: Seq<u8>,
    pub dr_tx_hash: Seq<char>,
    pub dr_tx_creation_timestamp: i64,
}

/// One pending record as fetched from the store: a record in the submitted
/// state, whose hash and creation timestamp are therefore present.
#[derive(Debug, PartialEq)]
pub struct PendingDr {
    /// Unique request id.
    pub dr_id: u64,
    /// Opaque serialized request payload.
    pub dr_bytes: Vec<u8>,
    /// Transaction hash the record is waiting to see resolved.
    pub dr_tx_hash: String,
    /// Timestamp of the submission, in milliseconds.
    pub dr_tx_creation_timestamp: i64,
}

impl View for PendingDr {
    type V = PendingDrView;

    open spec fn view(&self) -> PendingDrView {
        PendingDrView {
            dr_id: self.dr_id,
            dr_bytes: self.dr_bytes@,
            dr_tx_hash: self.dr_tx_hash@,
            dr_tx_creation_timestamp: self.dr_tx_creation_timestamp,
        }
    }
}

/// Mathematical view of [`Report`].
#[verifier::ext_equal]
pub struct ReportView {
    pub dr_id: u64,
    pub timestamp: u64,
    pub dr_tx_hash: Seq<char>,
    pub result: Seq<u8>,
}

/// One finalized result, produced during a scan and handed to the reporter
/// exactly once as part of that scan's batch.
#[derive(Debug, PartialEq)]
pub struct Report {
    /// Id of the resolved request.
    pub dr_id: u64,
    /// Canonical result timestamp derived from the block's epoch.
    pub timestamp: u64,
    /// The transaction hash this report resolves.
    pub dr_tx_hash: String,
    /// Raw result payload.
    pub result: Vec<u8>,
}

impl View for Report {
    type V = ReportView;

    open spec fn view(&self) -> ReportView {
        ReportView {
            dr_id: self.dr_id,
            timestamp: self.timestamp,
            dr_tx_hash: self.dr_tx_hash@,
            result: self.result@,
        }
    }
}

/// The record rewrite issued on the timeout recovery path: back to `New`,
/// with the transaction hash and creation timestamp cleared and the payload
/// kept unchanged.
pub fn reset_to_new(dr_bytes: Vec<u8>) -> (info: DrInfoBridge)
    ensures
        info@.dr_bytes == dr_bytes@,
        info@.dr_state == DrState::New,
        info@.dr_tx_hash is None,
        info@.dr_tx_creation_timestamp is None,
        info@.wf(),
{
    DrInfoBridge {
        dr_bytes,
        dr_state: DrState::New,
        dr_tx_hash: None,
        dr_tx_creation_timestamp: None,
    }
}

} // verus!
