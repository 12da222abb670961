use wit_poller::epochs::{
    convert_block_epoch_to_timestamp, EpochConstants, WITNET_CHECKPOINTS_PERIOD,
    WITNET_CHECKPOINT_ZERO_TIMESTAMP,
};
use wit_poller::poller::{Config, WitPoller, DEFAULT_CALL_TIMEOUT_MS};

fn production_constants() -> EpochConstants {
    EpochConstants {
        checkpoint_zero_timestamp: WITNET_CHECKPOINT_ZERO_TIMESTAMP,
        checkpoints_period: WITNET_CHECKPOINTS_PERIOD,
    }
}

#[test]
fn epoch_conversion_matches_genesis_formula() {
    assert_eq!(
        convert_block_epoch_to_timestamp(production_constants(), 100),
        1_602_670_500
    );
    assert_eq!(
        convert_block_epoch_to_timestamp(production_constants(), 0),
        1_602_666_000
    );
}

#[test]
fn epoch_conversion_is_deterministic() {
    let first: u64 = convert_block_epoch_to_timestamp(production_constants(), 123_456);
    let second: u64 = convert_block_epoch_to_timestamp(production_constants(), 123_456);
    assert_eq!(first, second);
}

#[test]
fn epoch_conversion_underflow_yields_zero() {
    let before_unix_zero = EpochConstants { checkpoint_zero_timestamp: -10_000, checkpoints_period: 45 };
    assert_eq!(convert_block_epoch_to_timestamp(before_unix_zero, 0), 0);
    // once enough epochs have passed, the timestamp is representable again
    assert_eq!(convert_block_epoch_to_timestamp(before_unix_zero, 1_000), 35_000);
}

#[test]
fn from_config_copies_the_decision_parameters() {
    let config = Config {
        wit_tally_polling_rate_ms: 30_000,
        dr_tx_unresolved_timeout_ms: Some(600_000),
    };
    let poller = WitPoller::from_config(&config);
    assert_eq!(poller.wit_tally_polling_rate_ms, 30_000);
    assert_eq!(poller.dr_tx_unresolved_timeout_ms, Some(600_000));
}

#[test]
fn next_scan_starts_one_interval_after_completion() {
    let poller = WitPoller {
        wit_tally_polling_rate_ms: 500,
        dr_tx_unresolved_timeout_ms: None,
    };
    assert_eq!(poller.next_scan_start_ms(1_000), 1_500);
}

#[test]
fn next_scan_start_saturates_at_the_largest_instant() {
    let poller = WitPoller {
        wit_tally_polling_rate_ms: 5,
        dr_tx_unresolved_timeout_ms: None,
    };
    assert_eq!(poller.next_scan_start_ms(u64::MAX - 2), u64::MAX);
}

#[test]
fn default_call_timeout_is_five_seconds() {
    assert_eq!(DEFAULT_CALL_TIMEOUT_MS, 5_000);
}
