//! Exchange rate between receipt-token shares and the underlying asset.

use vstd::prelude::*;

use crate::decimal::Decimal;
use crate::decimal::FRACTIONAL;
use crate::state::State;

verus! {

/// The share-to-asset rate in atomics: with no shares outstanding the rate
/// is fixed at one (the first deposit defines 1:1); otherwise it is the net
/// backing per share, `(balance + liabilities - reserves) / supply`,
/// truncated. All asset arguments are in atomics except `balance` and
/// `supply`, which are whole units.
pub open spec fn exchange_rate_model(liabilities: int, reserves: int, balance: int, supply: int) -> int {
    if supply == 0 {
        FRACTIONAL as int
    } else {
        (balance * (FRACTIONAL as int) + liabilities - reserves) / supply
    }
}

/// Bounds under which the rate is computable on the machine: the net
/// backing is non-negative and the numerator fits.
pub open spec fn exchange_rate_fits(liabilities: int, reserves: int, balance: int) -> bool {
    &&& balance * (FRACTIONAL as int) + liabilities <= u128::MAX as int
    &&& reserves <= balance * (FRACTIONAL as int) + liabilities
}

/// Derive the current exchange rate from live balance-sheet state; a pure
/// pass-through of the formula, with the zero-supply bootstrap fixed at one.
pub fn compute_exchange_rate_raw(state: &State, aterra_supply: u128, balance: u128) -> (r: Decimal)
    requires
        exchange_rate_fits(state@.total_liabilities, state@.total_reserves, balance as int),
    ensures
        r@ == exchange_rate_model(
            state@.total_liabilities,
            state@.total_reserves,
            balance as int,
            aterra_supply as int,
        ),
        aterra_supply == 0 ==> r@ == FRACTIONAL as int,
        r@ >= 0,
{
    if aterra_supply == 0 {
        Decimal::one()
    } else {
        let backing = Decimal::from_uint(balance).add(state.total_liabilities).sub(
            state.total_reserves,
        );
        backing.div_uint(aterra_supply)
    }
}

} // verus!
