//! Whether a player's past position can still be backtracked: the lag
//! compensation window check, over fixed-point seconds.

use vstd::prelude::*;
use crate::math::{abs_i, abs64, clamp64, clamp_i, div64, div_tz};

verus! {

/// Largest time or rate value the record check accepts, in fixed point.
pub const TIME_MAX: i64 = 0x100_0000_0000;

/// The record check, as a mathematical function. All quantities are
/// seconds (or ratios) in fixed point. The interpolation ratio is clamped
/// into its configured window, the update rate floored at its maximum
/// variant, and the effective lerp is the larger of the interpolation time
/// and ratio-over-rate. The total delay (both latencies plus lerp) is
/// clamped into the unlag window, and the record is valid when the
/// resulting offset from the simulation time stays within that window.
pub open spec fn record_valid_spec(
    simulation_time: int,
    current_time: int,
    unlag_max: int,
    interp: int,
    interp_ratio: int,
    interp_ratio_min: int,
    interp_ratio_max: int,
    update_rate: int,
    update_rate_max: int,
    latency_incoming: int,
    latency_outgoing: int,
    tick_base_time: int,
) -> bool {
    if simulation_time < current_time - unlag_max {
        false
    } else {
        let ratio = clamp_i(interp_ratio, interp_ratio_min, interp_ratio_max);
        let rate = if update_rate >= update_rate_max {
            update_rate
        } else {
            update_rate_max
        };
        let ratio_lerp = div_tz(ratio * 1024, rate);
        let lerp = if interp >= ratio_lerp {
            interp
        } else {
            ratio_lerp
        };
        let delta = clamp_i(latency_incoming + latency_outgoing + lerp, 0, unlag_max)
            - tick_base_time - simulation_time;
        abs_i(delta) <= unlag_max
    }
}

/// Determine whether a position this old can be backtracked. The caller
/// reads the console variables and channel latencies and hands them in as
/// fixed-point values; `tick_base_time` is the local player's tick base
/// converted to seconds.
pub fn is_record_valid(
    simulation_time: i64,
    current_time: i64,
    unlag_max: i64,
    interp: i64,
    interp_ratio: i64,
    interp_ratio_min: i64,
    interp_ratio_max: i64,
    update_rate: i64,
    update_rate_max: i64,
    latency_incoming: i64,
    latency_outgoing: i64,
    tick_base_time: i64,
) -> (r: bool)
    requires
        -TIME_MAX <= simulation_time <= TIME_MAX,
        -TIME_MAX <= current_time <= TIME_MAX,
        0 <= unlag_max <= TIME_MAX,
        -TIME_MAX <= interp <= TIME_MAX,
        -TIME_MAX <= interp_ratio <= TIME_MAX,
        -TIME_MAX <= interp_ratio_min <= interp_ratio_max <= TIME_MAX,
        -TIME_MAX <= update_rate <= TIME_MAX,
        -TIME_MAX <= update_rate_max <= TIME_MAX,
        update_rate > 0 || update_rate_max > 0,
        -TIME_MAX <= latency_incoming <= TIME_MAX,
        -TIME_MAX <= latency_outgoing <= TIME_MAX,
        -TIME_MAX <= tick_base_time <= TIME_MAX,
    ensures
        r == record_valid_spec(
            simulation_time as int,
            current_time as int,
            unlag_max as int,
            interp as int,
            interp_ratio as int,
            interp_ratio_min as int,
            interp_ratio_max as int,
            update_rate as int,
            update_rate_max as int,
            latency_incoming as int,
            latency_outgoing as int,
            tick_base_time as int,
        ),
{
    if simulation_time < current_time - unlag_max {
        return false;
    }
    let ratio = clamp64(interp_ratio, interp_ratio_min, interp_ratio_max);
    let rate = if update_rate >= update_rate_max {
        update_rate
    } else {
        update_rate_max
    };
    let ratio_lerp = div64(ratio * 1024, rate);
    let lerp = if interp >= ratio_lerp {
        interp
    } else {
        ratio_lerp
    };
    let delta = clamp64(latency_incoming + latency_outgoing + lerp, 0, unlag_max)
        - tick_base_time - simulation_time;
    abs64(delta) <= unlag_max
}

} // verus!
