//! The mutable market ledger and its mathematical model.

use vstd::prelude::*;

use crate::decimal::Decimal;
use crate::decimal::FRACTIONAL;

verus! {

/// The mutable ledger of the market, read-modify-written by every
/// accrual-touching operation.
///
/// All decimal fields are non-negative by construction (unsigned atomics);
/// both indices only ever grow, and the two timestamps are high-water marks
/// that accrual advances to exactly the timestamp it was given.
#[derive(Clone, Copy, Debug, PartialEq, Eq, Structural)]
pub struct State {
    /// Sum of all outstanding borrower debt in the stable asset,
    /// continuously compounding.
    pub total_liabilities: Decimal,
    /// Protocol-owned skim accumulated from interest, net of what was swept
    /// to the collector sink.
    pub total_reserves: Decimal,
    /// High-water mark of interest accrual, in seconds.
    pub last_interest_updated_time: u64,
    /// High-water mark of reward accrual, in seconds.
    pub last_reward_updated_time: u64,
    /// Cumulative interest multiplier, initially one, non-decreasing.
    pub global_interest_index: Decimal,
    /// Cumulative reward-per-unit-debt multiplier, initially zero,
    /// non-decreasing.
    pub global_reward_index: Decimal,
    /// Reward tokens emitted per second, refreshed by the epoch operation.
    pub anc_emission_rate: Decimal,
    /// Receipt-token supply the cached exchange rate was computed against.
    pub prev_aterra_supply: u128,
    /// Cached exchange rate as of the last explicit recomputation.
    pub prev_exchange_rate: Decimal,
}

/// The ledger as unbounded integers: every decimal field is its count of
/// atomic units. Transition functions and the laws about them are stated
/// over this model.
pub ghost struct StateModel {
    pub total_liabilities: int,
    pub total_reserves: int,
    pub last_interest_updated_time: int,
    pub last_reward_updated_time: int,
    pub global_interest_index: int,
    pub global_reward_index: int,
    pub anc_emission_rate: int,
    pub prev_aterra_supply: int,
    pub prev_exchange_rate: int,
}

impl View for State {
    type V = StateModel;

    open spec fn view(&self) -> StateModel {
        StateModel {
            total_liabilities: self.total_liabilities@,
            total_reserves: self.total_reserves@,
            last_interest_updated_time: self.last_interest_updated_time as int,
            last_reward_updated_time: self.last_reward_updated_time as int,
            global_interest_index: self.global_interest_index@,
            global_reward_index: self.global_reward_index@,
            anc_emission_rate: self.anc_emission_rate@,
            prev_aterra_supply: self.prev_aterra_supply as int,
            prev_exchange_rate: self.prev_exchange_rate@,
        }
    }
}

impl StateModel {
    /// Every field of the model lies in the range its machine type allows.
    pub open spec fn wf(self) -> bool {
        &&& 0 <= self.total_liabilities <= u128::MAX as int
        &&& 0 <= self.total_reserves <= u128::MAX as int
        &&& 0 <= self.last_interest_updated_time <= u64::MAX as int
        &&& 0 <= self.last_reward_updated_time <= u64::MAX as int
        &&& 0 <= self.global_interest_index <= u128::MAX as int
        &&& 0 <= self.global_reward_index <= u128::MAX as int
        &&& 0 <= self.anc_emission_rate <= u128::MAX as int
        &&& 0 <= self.prev_aterra_supply <= u128::MAX as int
        &&& 0 <= self.prev_exchange_rate <= u128::MAX as int
    }
}

/// The ledger at market creation: no debt, no reserves, interest index one,
/// reward index zero, both high-water marks at genesis time.
pub open spec fn initial_state_model(genesis_time: int, anc_emission_rate: int) -> StateModel {
    StateModel {
        total_liabilities: 0,
        total_reserves: 0,
        last_interest_updated_time: genesis_time,
        last_reward_updated_time: genesis_time,
        global_interest_index: FRACTIONAL as int,
        global_reward_index: 0,
        anc_emission_rate: anc_emission_rate,
        prev_aterra_supply: 0,
        prev_exchange_rate: FRACTIONAL as int,
    }
}

impl State {
    /// The model of any machine ledger is well formed: every field of a
    /// `State` lies in its machine type's range.
    pub proof fn lemma_view_wf(&self)
        ensures
            self@.wf(),
    {
    }

    /// Build the ledger of a freshly created market.
    pub fn initial(genesis_time: u64, anc_emission_rate: Decimal) -> (r: State)
        ensures
            r@ == initial_state_model(genesis_time as int, anc_emission_rate@),
    {
        State {
            total_liabilities: Decimal::zero(),
            total_reserves: Decimal::zero(),
            last_interest_updated_time: genesis_time,
            last_reward_updated_time: genesis_time,
            global_interest_index: Decimal::one(),
            global_reward_index: Decimal::zero(),
            anc_emission_rate,
            prev_aterra_supply: 0,
            prev_exchange_rate: Decimal::one(),
        }
    }
}

} // verus!
