//! The poller: scan cadence and configuration.
//!
//! The poller owns the per-scan decision parameters and the re-arm rule
//! that keeps scans from overlapping. A driver runs the self-perpetuating
//! loop around it: fetch the pending set, probe the node for each record,
//! let [`crate::scan::run_scan`] decide every disposition, deliver the
//! batch, and only then schedule the next scan.

use vstd::prelude::*;

verus! {

/// Default bounded timeout for each node-client call, in milliseconds.
pub const DEFAULT_CALL_TIMEOUT_MS: u64 = 5_000;

/// Configuration surface consumed by the core.
#[derive(Clone, Copy, PartialEq, Eq, Debug)]
pub struct Config {
    /// Delay between the completion of one scan and the start of the next,
    /// in milliseconds.
    pub wit_tally_polling_rate_ms: u64,
    /// Optional unresolved-timeout threshold in milliseconds; absence
    /// disables the reset-to-`New` safety net.
    pub dr_tx_unresolved_timeout_ms: Option<u64>,
}

/// Checks periodically the state of the pending data requests, so that a
/// resolved one can be reported. Holds the decision parameters of every
/// scan; the network client and the collaborators stay with the driver.
#[derive(Clone, Copy, PartialEq, Eq, Debug)]
pub struct WitPoller {
    /// Delay between the completion of one scan and the start of the next,
    /// in milliseconds.
    pub wit_tally_polling_rate_ms: u64,
    /// Optional unresolved-timeout threshold in milliseconds.
    pub dr_tx_unresolved_timeout_ms: Option<u64>,
}

/// The earliest instant at which the next scan may start: the completion
/// instant of the previous scan plus the poll interval, saturating at the
/// largest representable instant. Scheduling from the completion point —
/// never from the scan's start — is what keeps scans from overlapping,
/// at the price of cadence drift when a scan runs long.
pub open spec fn next_scan_start(completion_timestamp_ms: u64, polling_rate_ms: u64) -> int {
    if completion_timestamp_ms + polling_rate_ms <= u64::MAX {
        completion_timestamp_ms + polling_rate_ms
    } else {
        u64::MAX as int
    }
}

impl WitPoller {
    /// Initialize the `WitPoller` taking the configuration from a `Config`
    /// structure.
    pub fn from_config(config: &Config) -> (poller: Self)
        ensures
            poller.wit_tally_polling_rate_ms == config.wit_tally_polling_rate_ms,
            poller.dr_tx_unresolved_timeout_ms == config.dr_tx_unresolved_timeout_ms,
    {
        Self {
            wit_tally_polling_rate_ms: config.wit_tally_polling_rate_ms,
            dr_tx_unresolved_timeout_ms: config.dr_tx_unresolved_timeout_ms,
        }
    }

    /// The instant before which the driver must not begin the next scan,
    /// given the instant the previous scan fully completed (reporter send
    /// included).
    pub fn next_scan_start_ms(&self, completion_timestamp_ms: u64) -> (t: u64)
        ensures
            t == next_scan_start(completion_timestamp_ms, self.wit_tally_polling_rate_ms),
    {
        if completion_timestamp_ms <= u64::MAX - self.wit_tally_polling_rate_ms {
            completion_timestamp_ms + self.wit_tally_polling_rate_ms
        } else {
            u64::MAX
        }
    }
}

/// Law: scans do not overlap. The earliest start of the next scan never
/// precedes the completion of the previous one, and — short of saturation —
/// lies the full poll interval after it; a driver that begins no scan
/// before this instant therefore interleaves no two scans.
pub proof fn lemma_next_scan_after_completion(completion_timestamp_ms: u64, polling_rate_ms: u64)
    ensures
        next_scan_start(completion_timestamp_ms, polling_rate_ms) >= completion_timestamp_ms,
        completion_timestamp_ms + polling_rate_ms <= u64::MAX ==> next_scan_start(
            completion_timestamp_ms,
            polling_rate_ms,
        ) == completion_timestamp_ms + polling_rate_ms,
{
}

} // verus!
