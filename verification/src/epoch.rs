//! Epoch reconciliation: the periodic, overseer-only operation that accrues
//! interest and reward up to now, recomputes the canonical exchange rate,
//! skims whole-unit reserves towards the collector sink and re-targets the
//! emission rate, all as one atomic unit.
//!
//! External queries are performed by the caller and handed in as `Result`
//! values; any failed query aborts the whole operation with the state
//! untouched. The distribution-model query takes only the deposit-rate
//! figures and the pre-operation emission rate, none of which accrual
//! changes, so the caller may issue all queries before this call.

use vstd::prelude::*;

use crate::config::Config;
use crate::decimal::Decimal;
use crate::decimal::FRACTIONAL;
use crate::error::Error;
use crate::exchange::compute_exchange_rate_raw;
use crate::exchange::exchange_rate_fits;
use crate::exchange::exchange_rate_model;
use crate::interest::compute_interest_raw;
use crate::interest::interest_accrual_fits;
use crate::interest::interest_accrual_model;
use crate::reward::compute_reward;
use crate::reward::reward_accrual_fits;
use crate::reward::reward_accrual_model;
use crate::state::State;
use crate::state::StateModel;
use vstd::arithmetic::div_mod::lemma_fundamental_div_mod;

verus! {

/// Observable results of one epoch operation: the whole-unit amount of
/// reserves to transfer to the collector sink (zero when nothing is
/// skimmed) and the refreshed emission rate.
#[derive(Clone, Copy, Debug, PartialEq, Eq, Structural)]
pub struct EpochOutcome {
    pub total_reserves_transfer: u128,
    pub anc_emission_rate: Decimal,
}

/// The reserve skim, on the integer model: the reserves truncated to whole
/// units leave towards the collector, but only when that amount is non-zero
/// and strictly below the on-hand balance — the skim never goes negative,
/// never moves a fractional unit and never transfers more than is held.
/// Returns the state after the skim and the whole-unit transfer amount.
pub open spec fn reserve_skim_model(s: StateModel, balance: int) -> (StateModel, int) {
    let units = s.total_reserves / (FRACTIONAL as int);
    if units != 0 && balance > units {
        (
            StateModel { total_reserves: s.total_reserves - units * (FRACTIONAL as int), ..s },
            units,
        )
    } else {
        (s, 0)
    }
}

/// One whole epoch operation, on the integer model: interest accrual with
/// the queried borrow rate, the canonical exchange-rate recomputation
/// including the interest already earmarked for distribution, reward
/// accrual, the reserve skim, and the emission-rate refresh, in that order.
/// `balance` is the on-hand balance net of `distributed_interest`.
pub open spec fn epoch_transition_model(
    s: StateModel,
    now: int,
    balance: int,
    supply: int,
    borrow_rate: int,
    target: int,
    distributed_interest: int,
    new_emission_rate: int,
) -> (StateModel, int) {
    let s1 = interest_accrual_model(s, now, balance, supply, borrow_rate, target);
    let er = exchange_rate_model(
        s1.total_liabilities,
        s1.total_reserves,
        balance + distributed_interest,
        supply,
    );
    let s2 = StateModel { prev_exchange_rate: er, ..s1 };
    let s3 = reward_accrual_model(s2, now);
    let skimmed = reserve_skim_model(s3, balance);
    (StateModel { anc_emission_rate: new_emission_rate, ..skimmed.0 }, skimmed.1)
}

/// Bounds under which one epoch operation stays within the machine's
/// integer range; `balance` is already net of the distributed interest.
pub open spec fn epoch_fits(
    s: StateModel,
    now: int,
    balance: int,
    supply: int,
    borrow_rate: int,
    target: int,
    distributed_interest: int,
) -> bool {
    let s1 = interest_accrual_model(s, now, balance, supply, borrow_rate, target);
    &&& interest_accrual_fits(s, now, balance, supply, borrow_rate, target)
    &&& exchange_rate_fits(
        s1.total_liabilities,
        s1.total_reserves,
        balance + distributed_interest,
    )
    &&& (now >= s.last_reward_updated_time ==> reward_accrual_fits(
        StateModel {
            prev_exchange_rate: exchange_rate_model(
                s1.total_liabilities,
                s1.total_reserves,
                balance + distributed_interest,
                supply,
            ),
            ..s1
        },
        now,
    ))
}

/// Is `sender` the registered overseer?
pub open spec fn epoch_authorized(config: Config, sender: Seq<char>) -> bool {
    &&& config.overseer_contract is Some
    &&& (config.overseer_contract->Some_0)@ == sender
}

/// Run one epoch operation as a single atomic unit.
///
/// Only the registered overseer may call it. The caller performs the
/// external queries (receipt-token supply, on-hand balance, borrow rate
/// from the interest model, refreshed emission rate from the distribution
/// model) and passes their outcomes; a failed query, a failed authorization
/// or a temporal-ordering violation aborts the whole operation with the
/// state exactly as it was. On success the caller owes the collector sink a
/// transfer of `total_reserves_transfer` whole units of the stable asset.
pub fn execute_epoch_operations(
    config: &Config,
    state: &mut State,
    sender: &String,
    block_time: u64,
    target_deposit_rate: Decimal,
    distributed_interest: u128,
    aterra_supply_query: Result<u128, Error>,
    balance_query: Result<u128, Error>,
    borrow_rate_query: Result<Decimal, Error>,
    anc_emission_rate_query: Result<Decimal, Error>,
) -> (r: Result<EpochOutcome, Error>)
    requires
        balance_query matches Ok(b) ==> b >= distributed_interest,
        (epoch_authorized(*config, sender@) && aterra_supply_query is Ok && balance_query is Ok
            && borrow_rate_query is Ok && (block_time as int)
            >= old(state)@.last_interest_updated_time) ==> epoch_fits(
            old(state)@,
            block_time as int,
            balance_query->Ok_0 - distributed_interest,
            aterra_supply_query->Ok_0 as int,
            (borrow_rate_query->Ok_0)@,
            target_deposit_rate@,
            distributed_interest as int,
        ),
    ensures
        r is Err ==> *final(state) == *old(state),
        config.overseer_contract is None ==> r == Err::<EpochOutcome, Error>(
            Error::CollaboratorNotRegistered,
        ),
        (config.overseer_contract is Some && !epoch_authorized(*config, sender@)) ==> r == Err::<
            EpochOutcome,
            Error,
        >(Error::Unauthorized),
        (epoch_authorized(*config, sender@) && aterra_supply_query is Err) ==> r == Err::<
            EpochOutcome,
            Error,
        >(aterra_supply_query->Err_0),
        (epoch_authorized(*config, sender@) && aterra_supply_query is Ok
            && balance_query is Err) ==> r == Err::<EpochOutcome, Error>(balance_query->Err_0),
        (epoch_authorized(*config, sender@) && aterra_supply_query is Ok && balance_query is Ok
            && borrow_rate_query is Err) ==> r == Err::<EpochOutcome, Error>(
            borrow_rate_query->Err_0,
        ),
        (epoch_authorized(*config, sender@) && aterra_supply_query is Ok && balance_query is Ok
            && borrow_rate_query is Ok && ((block_time as int)
            < old(state)@.last_interest_updated_time || (block_time as int)
            < old(state)@.last_reward_updated_time)) ==> r == Err::<EpochOutcome, Error>(
            Error::TemporalOrder,
        ),
        (epoch_authorized(*config, sender@) && aterra_supply_query is Ok && balance_query is Ok
            && borrow_rate_query is Ok && (block_time as int)
            >= old(state)@.last_interest_updated_time && (block_time as int)
            >= old(state)@.last_reward_updated_time && anc_emission_rate_query is Err) ==> r
            == Err::<EpochOutcome, Error>(anc_emission_rate_query->Err_0),
        (epoch_authorized(*config, sender@) && aterra_supply_query is Ok && balance_query is Ok
            && borrow_rate_query is Ok && anc_emission_rate_query is Ok && (block_time as int)
            >= old(state)@.last_interest_updated_time && (block_time as int)
            >= old(state)@.last_reward_updated_time) ==> {
            let stepped = epoch_transition_model(
                old(state)@,
                block_time as int,
                balance_query->Ok_0 - distributed_interest,
                aterra_supply_query->Ok_0 as int,
                (borrow_rate_query->Ok_0)@,
                target_deposit_rate@,
                distributed_interest as int,
                (anc_emission_rate_query->Ok_0)@,
            );
            &&& r matches Ok(outcome)
            &&& final(state)@ == stepped.0
            &&& outcome.total_reserves_transfer as int == stepped.1
            &&& outcome.anc_emission_rate == anc_emission_rate_query->Ok_0
            &&& final(state)@.total_reserves >= 0
            &&& outcome.total_reserves_transfer as int <= balance_query->Ok_0
                - distributed_interest
        },
{
    let overseer = match &config.overseer_contract {
        Some(o) => o,
        None => {
            return Err(Error::CollaboratorNotRegistered);
        },
    };
    if !(*overseer == *sender) {
        return Err(Error::Unauthorized);
    }
    let aterra_supply = match aterra_supply_query {
        Ok(v) => v,
        Err(e) => {
            return Err(e);
        },
    };
    let balance_gross = match balance_query {
        Ok(v) => v,
        Err(e) => {
            return Err(e);
        },
    };
    let borrow_rate = match borrow_rate_query {
        Ok(v) => v,
        Err(e) => {
            return Err(e);
        },
    };
    // correct for interest already earmarked for distribution but not yet
    // out of the queried balance
    let balance = balance_gross - distributed_interest;

    let mut new_state = *state;
    match compute_interest_raw(
        &mut new_state,
        block_time,
        balance,
        aterra_supply,
        borrow_rate,
        target_deposit_rate,
    ) {
        Ok(_) => (),
        Err(e) => {
            return Err(e);
        },
    }
    // the canonical rate the next depositor or redeemer sees, including the
    // interest about to be distributed
    new_state.prev_exchange_rate = compute_exchange_rate_raw(
        &new_state,
        aterra_supply,
        balance_gross,
    );
    match compute_reward(&mut new_state, block_time) {
        Ok(_) => (),
        Err(e) => {
            return Err(e);
        },
    }

    let reserves_units = new_state.total_reserves.to_uint_floor();
    let transfer: u128 = if reserves_units != 0 && balance > reserves_units {
        proof {
            lemma_fundamental_div_mod(new_state@.total_reserves, FRACTIONAL as int);
        }
        new_state.total_reserves = new_state.total_reserves.sub(
            Decimal::from_uint(reserves_units),
        );
        reserves_units
    } else {
        0
    };

    let new_emission_rate = match anc_emission_rate_query {
        Ok(v) => v,
        Err(e) => {
            return Err(e);
        },
    };
    new_state.anc_emission_rate = new_emission_rate;
    *state = new_state;
    Ok(EpochOutcome { total_reserves_transfer: transfer, anc_emission_rate: new_emission_rate })
}

} // verus!
