//! Interest accrual: advances the global interest index and the
//! liability/reserve balances given elapsed time and a per-second borrow
//! rate, splitting yield in excess of the target deposit rate into reserves.

use vstd::prelude::*;

use crate::decimal::Decimal;
use crate::decimal::FRACTIONAL;
use crate::error::Error;
use crate::exchange::compute_exchange_rate_raw;
use crate::exchange::exchange_rate_fits;
use crate::exchange::exchange_rate_model;
use crate::state::State;
use crate::state::StateModel;
use vstd::arithmetic::div_mod::lemma_div_is_ordered;
use vstd::arithmetic::div_mod::lemma_div_multiples_vanish;
use vstd::arithmetic::mul::lemma_mul_inequality;

verus! {

/// Externally queried inputs that one interest accrual needs: the market's
/// on-hand balance, the live receipt-token supply, the per-second borrow
/// rate from the interest model and the overseer's target deposit rate.
#[derive(Clone, Copy, Debug, PartialEq, Eq, Structural)]
pub struct AccrualInput {
    pub balance: u128,
    pub aterra_supply: u128,
    pub borrow_rate: Decimal,
    pub target_deposit_rate: Decimal,
}

/// Deposit yield per second realized over the step, in atomics: the growth
/// of the exchange rate against the cached previous rate, spread over the
/// elapsed seconds. Zero when the rate did not grow (or no previous rate
/// exists), so a shrinking exchange rate never produces a skim.
pub open spec fn deposit_rate_model(er: int, prev_er: int, passed: int) -> int {
    if prev_er > 0 && er >= prev_er {
        (er * (FRACTIONAL as int) / prev_er - (FRACTIONAL as int)) / passed
    } else {
        0
    }
}

/// One interest accrual step, on the integer model.
///
/// At an already-reached timestamp the step is the identity; with no
/// outstanding debt only the high-water mark advances. Otherwise the index
/// is compounded by `1 + rate * elapsed`, the accrued interest is added to
/// the liabilities, and yield in excess of the target deposit rate is
/// redirected into the reserves; the exchange-rate snapshot is refreshed
/// last.
pub open spec fn interest_accrual_model(
    s: StateModel,
    now: int,
    balance: int,
    supply: int,
    rate: int,
    target: int,
) -> StateModel {
    if now == s.last_interest_updated_time {
        s
    } else if s.total_liabilities == 0 {
        StateModel { last_interest_updated_time: now, ..s }
    } else {
        let passed = now - s.last_interest_updated_time;
        let factor = rate * passed;
        let accrued = s.total_liabilities * factor / (FRACTIONAL as int);
        let liabilities2 = s.total_liabilities + accrued;
        let index2 = s.global_interest_index * ((FRACTIONAL as int) + factor) / (
        FRACTIONAL as int);
        let er1 = exchange_rate_model(liabilities2, s.total_reserves, balance, supply);
        let dep = deposit_rate_model(er1, s.prev_exchange_rate, passed);
        if dep > target {
            let excess_yield = s.prev_exchange_rate * s.prev_aterra_supply * passed * (dep
                - target) / (FRACTIONAL as int);
            let reserves2 = s.total_reserves + excess_yield;
            let er2 = exchange_rate_model(liabilities2, reserves2, balance, supply);
            StateModel {
                total_liabilities: liabilities2,
                total_reserves: reserves2,
                global_interest_index: index2,
                prev_aterra_supply: supply,
                prev_exchange_rate: er2,
                last_interest_updated_time: now,
                ..s
            }
        } else {
            StateModel {
                total_liabilities: liabilities2,
                global_interest_index: index2,
                prev_aterra_supply: supply,
                prev_exchange_rate: er1,
                last_interest_updated_time: now,
                ..s
            }
        }
    }
}

/// Bounds under which one interest accrual step stays within the machine's
/// integer range; every intermediate of `interest_accrual_model` fits.
pub open spec fn interest_accrual_fits(
    s: StateModel,
    now: int,
    balance: int,
    supply: int,
    rate: int,
    target: int,
) -> bool {
    if now == s.last_interest_updated_time || s.total_liabilities == 0 {
        true
    } else {
        let passed = now - s.last_interest_updated_time;
        let factor = rate * passed;
        let accrued = s.total_liabilities * factor / (FRACTIONAL as int);
        let liabilities2 = s.total_liabilities + accrued;
        let er1 = exchange_rate_model(liabilities2, s.total_reserves, balance, supply);
        let dep = deposit_rate_model(er1, s.prev_exchange_rate, passed);
        &&& factor <= u128::MAX as int
        &&& (FRACTIONAL as int) + factor <= u128::MAX as int
        &&& s.total_liabilities * factor <= u128::MAX as int
        &&& s.global_interest_index * ((FRACTIONAL as int) + factor) <= u128::MAX as int
        &&& liabilities2 <= u128::MAX as int
        &&& exchange_rate_fits(liabilities2, s.total_reserves, balance)
        &&& er1 * (FRACTIONAL as int) <= u128::MAX as int
        &&& (dep > target ==> {
            let excess_yield = s.prev_exchange_rate * s.prev_aterra_supply * passed * (dep
                - target) / (FRACTIONAL as int);
            &&& s.prev_exchange_rate * s.prev_aterra_supply <= u128::MAX as int
            &&& s.prev_exchange_rate * s.prev_aterra_supply * passed <= u128::MAX as int
            &&& s.prev_exchange_rate * s.prev_aterra_supply * passed * (dep - target)
                <= u128::MAX as int
            &&& s.total_reserves + excess_yield <= u128::MAX as int
            &&& exchange_rate_fits(liabilities2, s.total_reserves + excess_yield, balance)
        })
    }
}

/// Advance the interest index and the liability/reserve balances to
/// `block_time`, a pure function of the state and the supplied inputs.
///
/// A timestamp before the high-water mark is a temporal-ordering error and
/// leaves the state untouched; at the mark itself the call is an exact
/// no-op; with zero liabilities only the mark advances.
pub fn compute_interest_raw(
    state: &mut State,
    block_time: u64,
    balance: u128,
    aterra_supply: u128,
    borrow_rate: Decimal,
    target_deposit_rate: Decimal,
) -> (r: Result<(), Error>)
    requires
        (block_time as int) >= old(state)@.last_interest_updated_time ==> interest_accrual_fits(
            old(state)@,
            block_time as int,
            balance as int,
            aterra_supply as int,
            borrow_rate@,
            target_deposit_rate@,
        ),
    ensures
        (block_time as int) < old(state)@.last_interest_updated_time ==> (r == Err::<(), Error>(
            Error::TemporalOrder,
        ) && *final(state) == *old(state)),
        (block_time as int) >= old(state)@.last_interest_updated_time ==> (r == Ok::<(), Error>(())
            && final(state)@ == interest_accrual_model(
            old(state)@,
            block_time as int,
            balance as int,
            aterra_supply as int,
            borrow_rate@,
            target_deposit_rate@,
        )),
{
    if block_time < state.last_interest_updated_time {
        return Err(Error::TemporalOrder);
    }
    if block_time == state.last_interest_updated_time {
        return Ok(());
    }
    if state.total_liabilities.is_zero() {
        state.last_interest_updated_time = block_time;
        return Ok(());
    }
    let passed: u64 = block_time - state.last_interest_updated_time;
    let factor = borrow_rate.mul_uint(passed as u128);
    let accrued = state.total_liabilities.mul(factor);
    state.global_interest_index = state.global_interest_index.mul(Decimal::one().add(factor));
    state.total_liabilities = state.total_liabilities.add(accrued);

    let er1 = compute_exchange_rate_raw(state, aterra_supply, balance);
    let mut er_final = er1;
    let prev_er = state.prev_exchange_rate;
    if !prev_er.is_zero() && er1.ge(&prev_er) {
        proof {
            lemma_mul_inequality(prev_er@, er1@, FRACTIONAL as int);
            lemma_div_is_ordered(
                prev_er@ * (FRACTIONAL as int),
                er1@ * (FRACTIONAL as int),
                prev_er@,
            );
            lemma_div_multiples_vanish(FRACTIONAL as int, prev_er@);
        }
        let effective_deposit_rate = er1.div(prev_er);
        let deposit_rate = effective_deposit_rate.sub(Decimal::one()).div_uint(passed as u128);
        if deposit_rate.gt(&target_deposit_rate) {
            // yield in excess of the target compounds into the reserves,
            // not into the depositors' exchange rate
            let excess_deposit_rate = deposit_rate.sub(target_deposit_rate);
            let excess_yield = state.prev_exchange_rate.mul_uint(state.prev_aterra_supply)
                .mul_uint(passed as u128).mul(excess_deposit_rate);
            state.total_reserves = state.total_reserves.add(excess_yield);
            er_final = compute_exchange_rate_raw(state, aterra_supply, balance);
        }
    }
    state.prev_aterra_supply = aterra_supply;
    state.prev_exchange_rate = er_final;
    state.last_interest_updated_time = block_time;
    Ok(())
}

} // verus!
