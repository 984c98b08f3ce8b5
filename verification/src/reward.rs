//! Reward accrual: advances the global reward index given elapsed time and
//! the current emission rate, pro rata across outstanding debt.

use vstd::prelude::*;

use crate::decimal::Decimal;
use crate::decimal::FRACTIONAL;
use crate::error::Error;
use crate::state::State;
use crate::state::StateModel;

verus! {

/// One reward accrual step, on the integer model.
///
/// At an already-reached timestamp the step is the identity. Otherwise the
/// emitted reward `emission_rate * elapsed` is spread over the outstanding
/// debt and added to the reward index; with no debt there is no share
/// denominator, so only the high-water mark advances and no backlog is
/// carried forward.
pub open spec fn reward_accrual_model(s: StateModel, now: int) -> StateModel {
    if now == s.last_reward_updated_time {
        s
    } else if s.total_liabilities == 0 {
        StateModel { last_reward_updated_time: now, ..s }
    } else {
        let passed = now - s.last_reward_updated_time;
        let accrued = s.anc_emission_rate * passed;
        StateModel {
            global_reward_index: s.global_reward_index + accrued * (FRACTIONAL as int)
                / s.total_liabilities,
            last_reward_updated_time: now,
            ..s
        }
    }
}

/// Bounds under which one reward accrual step stays within the machine's
/// integer range.
pub open spec fn reward_accrual_fits(s: StateModel, now: int) -> bool {
    if now == s.last_reward_updated_time || s.total_liabilities == 0 {
        true
    } else {
        let passed = now - s.last_reward_updated_time;
        let accrued = s.anc_emission_rate * passed;
        &&& accrued <= u128::MAX as int
        &&& accrued * (FRACTIONAL as int) <= u128::MAX as int
        &&& s.global_reward_index + accrued * (FRACTIONAL as int) / s.total_liabilities
            <= u128::MAX as int
    }
}

/// Advance the reward index to `block_time`, a pure function of the state.
///
/// A timestamp before the high-water mark is a temporal-ordering error and
/// leaves the state untouched; at the mark itself the call is an exact
/// no-op; with zero liabilities only the mark advances. This engine never
/// fetches the emission rate; refreshing it belongs to the epoch operation.
pub fn compute_reward(state: &mut State, block_time: u64) -> (r: Result<(), Error>)
    requires
        (block_time as int) >= old(state)@.last_reward_updated_time ==> reward_accrual_fits(
            old(state)@,
            block_time as int,
        ),
    ensures
        (block_time as int) < old(state)@.last_reward_updated_time ==> (r == Err::<(), Error>(
            Error::TemporalOrder,
        ) && *final(state) == *old(state)),
        (block_time as int) >= old(state)@.last_reward_updated_time ==> (r == Ok::<(), Error>(())
            && final(state)@ == reward_accrual_model(old(state)@, block_time as int)),
{
    if block_time < state.last_reward_updated_time {
        return Err(Error::TemporalOrder);
    }
    if block_time == state.last_reward_updated_time {
        return Ok(());
    }
    if state.total_liabilities.is_zero() {
        state.last_reward_updated_time = block_time;
        return Ok(());
    }
    let passed: u64 = block_time - state.last_reward_updated_time;
    let reward_accrued = state.anc_emission_rate.mul_uint(passed as u128);
    state.global_reward_index = state.global_reward_index.add(
        reward_accrued.div(state.total_liabilities),
    );
    state.last_reward_updated_time = block_time;
    Ok(())
}

} // verus!
