//! Conversion of a network epoch number into a Unix timestamp.

use vstd::prelude::*;

verus! {

/// Fixed genesis constants of the oracle network's epoch clock: the Unix
/// timestamp of checkpoint zero and the fixed duration of one epoch, in
/// seconds. Process-wide, read-only configuration.
#[derive(Clone, Copy, PartialEq, Eq, Structural, Debug)]
pub struct EpochConstants {
    pub checkpoint_zero_timestamp: i64,
    pub checkpoints_period: u16,
}

/// Genesis timestamp of the production network: Wednesday, 14-Oct-2020, 09:00 UTC.
pub const WITNET_CHECKPOINT_ZERO_TIMESTAMP: i64 = 1_602_666_000;

/// Epoch duration of the production network, in seconds.
pub const WITNET_CHECKPOINTS_PERIOD: u16 = 45;

/// The instant at which the given epoch starts, in unbounded arithmetic:
/// genesis timestamp plus the epoch number times the epoch duration.
pub open spec fn epoch_timestamp(constants: EpochConstants, epoch: u32) -> int {
    constants.checkpoint_zero_timestamp + epoch * constants.checkpoints_period
}

/// What the conversion returns: the epoch's timestamp where it fits an
/// unsigned 64-bit value, and the sentinel 0 on overflow or underflow.
pub open spec fn converted_timestamp(constants: EpochConstants, epoch: u32) -> u64 {
    if 0 <= epoch_timestamp(constants, epoch) <= u64::MAX {
        epoch_timestamp(constants, epoch) as u64
    } else {
        0
    }
}

/// Derive the canonical Unix timestamp of a result from the epoch number of
/// the block that included its data request. Total and side-effect free: an
/// epoch outside the representable range yields 0 instead of failing.
pub fn convert_block_epoch_to_timestamp(epoch_constants: EpochConstants, epoch: u32) -> (t: u64)
    ensures
        t == converted_timestamp(epoch_constants, epoch),
{
    proof {
        assert((epoch as int) * (epoch_constants.checkpoints_period as int) <= 0xFFFF_FFFF * 0xFFFF)
            by (nonlinear_arith)
            requires
                0 <= epoch as int <= 0xFFFF_FFFF,
                0 <= epoch_constants.checkpoints_period as int <= 0xFFFF,
        ;
        assert(0 <= (epoch as int) * (epoch_constants.checkpoints_period as int)) by (nonlinear_arith)
            requires
                0 <= epoch as int,
                0 <= epoch_constants.checkpoints_period as int,
        ;
    }
    let product: i128 = (epoch as i128) * (epoch_constants.checkpoints_period as i128);
    let sum: i128 = (epoch_constants.checkpoint_zero_timestamp as i128) + product;
    if 0 <= sum && sum <= u64::MAX as i128 {
        sum as u64
    } else {
        0
    }
}

/// Law: epoch conversion is pure and deterministic — two conversions of
/// identical constants and epoch always agree — and arithmetic overflow or
/// underflow yields the sentinel 0 rather than an error.
pub proof fn lemma_epoch_conversion_deterministic(
    constants: EpochConstants,
    epoch: u32,
    t1: u64,
    t2: u64,
)
    requires
        t1 == converted_timestamp(constants, epoch),
        t2 == converted_timestamp(constants, epoch),
    ensures
        t1 == t2,
        !(0 <= epoch_timestamp(constants, epoch) <= u64::MAX) ==> t1 == 0,
{
}

} // verus!
