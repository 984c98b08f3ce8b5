//! Market configuration and its registration lifecycle.
//!
//! Collaborator handles are explicit optionals: unset until a one-time
//! registration call fills them, immutable afterwards.

use vstd::prelude::*;

use crate::decimal::Decimal;
use crate::error::Error;
use crate::interest::AccrualInput;
use crate::interest::compute_interest_raw;
use crate::interest::interest_accrual_fits;
use crate::interest::interest_accrual_model;
use crate::state::State;

verus! {

/// Immutable market identity and collaborator handles; handle fields are
/// `None` until registered, and owner-mutable fields change only through
/// `update_config`.
#[derive(Clone, Debug, PartialEq, Eq)]
pub struct Config {
    /// The market's own account, whose balance backs the pool.
    pub contract_addr: String,
    /// Principal allowed to update the configuration.
    pub owner_addr: String,
    /// The receipt-token contract, registered once after creation.
    pub aterra_contract: Option<String>,
    /// The overseer, sole caller of the epoch operation.
    pub overseer_contract: Option<String>,
    /// The external interest-rate model.
    pub interest_model: Option<String>,
    /// The external distribution model that refreshes the emission rate.
    pub distribution_model: Option<String>,
    /// The sink that skimmed reserves are transferred to.
    pub collector_contract: Option<String>,
    /// The reward distributor.
    pub distributor_contract: Option<String>,
    /// Denomination of the underlying stable asset.
    pub stable_denom: String,
    /// Upper bound on the borrowable fraction of collateral.
    pub max_borrow_factor: Decimal,
}

/// Complete the two-phase creation protocol: record the receipt-token
/// contract's identity exactly once; a second attempt is refused.
pub fn register_aterra(config: &mut Config, token_addr: String) -> (r: Result<(), Error>)
    ensures
        old(config).aterra_contract is Some ==> (r == Err::<(), Error>(Error::Unauthorized)
            && *final(config) == *old(config)),
        old(config).aterra_contract is None ==> (r == Ok::<(), Error>(()) && *final(config) == (
        Config { aterra_contract: Some(token_addr), ..*old(config) })),
{
    if config.aterra_contract.is_some() {
        return Err(Error::Unauthorized);
    }
    config.aterra_contract = Some(token_addr);
    Ok(())
}

/// Register the five remaining collaborator handles exactly once, as one
/// unit; if any of them is already set the whole call is refused.
pub fn register_contracts(
    config: &mut Config,
    overseer_contract: String,
    interest_model: String,
    distribution_model: String,
    collector_contract: String,
    distributor_contract: String,
) -> (r: Result<(), Error>)
    ensures
        (old(config).overseer_contract is Some || old(config).interest_model is Some || old(config).distribution_model is Some || old(config).collector_contract is Some || old(config).distributor_contract is Some) ==> (r == Err::<(), Error>(Error::Unauthorized) && *final(config) == *old(config)),
        (old(config).overseer_contract is None && old(config).interest_model is None && old(config).distribution_model is None && old(config).collector_contract is None && old(config).distributor_contract is None) ==> (r == Ok::<(), Error>(()) && *final(config) == (Config {
            overseer_contract: Some(overseer_contract),
            interest_model: Some(interest_model),
            distribution_model: Some(distribution_model),
            collector_contract: Some(collector_contract),
            distributor_contract: Some(distributor_contract),
            ..*old(config)
        })),
{
    if config.overseer_contract.is_some() || config.interest_model.is_some()
        || config.distribution_model.is_some() || config.collector_contract.is_some()
        || config.distributor_contract.is_some() {
        return Err(Error::Unauthorized);
    }
    config.overseer_contract = Some(overseer_contract);
    config.interest_model = Some(interest_model);
    config.distribution_model = Some(distribution_model);
    config.collector_contract = Some(collector_contract);
    config.distributor_contract = Some(distributor_contract);
    Ok(())
}

/// The configuration after an owner update: each `Some` argument replaces
/// its field.
pub open spec fn updated_config(
    c: Config,
    owner_addr: Option<String>,
    interest_model: Option<String>,
    distribution_model: Option<String>,
    max_borrow_factor: Option<Decimal>,
) -> Config {
    Config {
        owner_addr: match owner_addr {
            Some(o) => o,
            None => c.owner_addr,
        },
        interest_model: match interest_model {
            Some(m) => Some(m),
            None => c.interest_model,
        },
        distribution_model: match distribution_model {
            Some(m) => Some(m),
            None => c.distribution_model,
        },
        max_borrow_factor: match max_borrow_factor {
            Some(f) => f,
            None => c.max_borrow_factor,
        },
        ..c
    }
}

/// Owner-only configuration update. Replacing the interest model first
/// settles all interest still owed under the old model: interest is accrued
/// to `block_time` with the old model's queried inputs before the handle
/// changes. The whole update is atomic: on any error both the configuration
/// and the state are left untouched.
pub fn update_config(
    config: &mut Config,
    state: &mut State,
    sender: &String,
    block_time: u64,
    owner_addr: Option<String>,
    interest_model: Option<String>,
    distribution_model: Option<String>,
    max_borrow_factor: Option<Decimal>,
    accrual: Option<AccrualInput>,
) -> (r: Result<(), Error>)
    requires
        interest_model is Some ==> accrual is Some,
        (sender@ == old(config).owner_addr@ && interest_model is Some && (block_time as int) >= old(state)@.last_interest_updated_time && accrual is Some) ==> interest_accrual_fits(
            old(state)@,
            block_time as int,
            (accrual->Some_0).balance as int,
            (accrual->Some_0).aterra_supply as int,
            (accrual->Some_0).borrow_rate@,
            (accrual->Some_0).target_deposit_rate@,
        ),
    ensures
        sender@ != old(config).owner_addr@ ==> (r == Err::<(), Error>(Error::Unauthorized)
            && *final(config) == *old(config) && *final(state) == *old(state)),
        (sender@ == old(config).owner_addr@ && interest_model is Some && (block_time as int) < old(state)@.last_interest_updated_time) ==> (r == Err::<(), Error>(Error::TemporalOrder) && *final(config) == *old(config) && *final(state) == *old(state)),
        (sender@ == old(config).owner_addr@ && (interest_model is None || (block_time as int)
            >= old(state)@.last_interest_updated_time)) ==> (r == Ok::<(), Error>(()) && *final(config) == updated_config(
            *old(config),
            owner_addr,
            interest_model,
            distribution_model,
            max_borrow_factor,
        ) && final(state)@ == (if interest_model is Some {
            interest_accrual_model(
                old(state)@,
                block_time as int,
                (accrual->Some_0).balance as int,
                (accrual->Some_0).aterra_supply as int,
                (accrual->Some_0).borrow_rate@,
                (accrual->Some_0).target_deposit_rate@,
            )
        } else {
            old(state)@
        })),
{
    if !(*sender == config.owner_addr) {
        return Err(Error::Unauthorized);
    }
    if interest_model.is_some() {
        if let Some(a) = accrual {
            let mut new_state = *state;
            match compute_interest_raw(
                &mut new_state,
                block_time,
                a.balance,
                a.aterra_supply,
                a.borrow_rate,
                a.target_deposit_rate,
            ) {
                Ok(_) => {
                    *state = new_state;
                },
                Err(e) => {
                    return Err(e);
                },
            }
        }
    }
    if let Some(o) = owner_addr {
        config.owner_addr = o;
    }
    if let Some(m) = interest_model {
        config.interest_model = Some(m);
    }
    if let Some(m) = distribution_model {
        config.distribution_model = Some(m);
    }
    if let Some(f) = max_borrow_factor {
        config.max_borrow_factor = f;
    }
    Ok(())
}

} // verus!
