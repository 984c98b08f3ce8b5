//! Market lifecycle and read-only views: creation, the deferred
//! receipt-token registration, the redeem hook authorization, migration and
//! the time-projected state queries.

use vstd::prelude::*;

use crate::config::Config;
use crate::config::register_aterra;
use crate::decimal::Decimal;
use crate::error::Error;
use crate::exchange::compute_exchange_rate_raw;
use crate::exchange::exchange_rate_fits;
use crate::exchange::exchange_rate_model;
use crate::interest::AccrualInput;
use crate::interest::compute_interest_raw;
use crate::interest::interest_accrual_fits;
use crate::interest::interest_accrual_model;
use crate::reward::compute_reward;
use crate::reward::reward_accrual_fits;
use crate::reward::reward_accrual_model;
use crate::state::State;
use crate::state::initial_state_model;

verus! {

/// Funding a market creation must deposit exactly this many whole units of
/// the stable asset.
pub const INITIAL_DEPOSIT_AMOUNT: u128 = 1000000;

/// One deposited coin: a denomination and a whole-unit amount.
#[derive(Clone, Debug, PartialEq, Eq)]
pub struct Coin {
    pub denom: String,
    pub amount: u128,
}

/// Amount of the first coin of denomination `denom` among `funds`, zero
/// when none is present.
pub open spec fn initial_deposit_model(funds: Seq<Coin>, denom: Seq<char>) -> int
    decreases funds.len(),
{
    if funds.len() == 0 {
        0
    } else if funds[0].denom@ == denom {
        funds[0].amount as int
    } else {
        initial_deposit_model(funds.skip(1), denom)
    }
}

/// Create the market: the deposited funds must carry exactly the required
/// initial amount of the stable asset, and the new configuration starts
/// with every collaborator handle unset, awaiting registration.
pub fn instantiate(
    contract_addr: String,
    funds: &Vec<Coin>,
    owner_addr: String,
    stable_denom: String,
    anc_emission_rate: Decimal,
    max_borrow_factor: Decimal,
    block_time: u64,
) -> (r: Result<(Config, State), Error>)
    ensures
        initial_deposit_model(funds@, stable_denom@) != INITIAL_DEPOSIT_AMOUNT as int ==> r
            == Err::<(Config, State), Error>(
            Error::InitialFundsNotDeposited { required: INITIAL_DEPOSIT_AMOUNT },
        ),
        initial_deposit_model(funds@, stable_denom@) == INITIAL_DEPOSIT_AMOUNT as int ==> {
            &&& r matches Ok(cs)
            &&& cs.1@ == initial_state_model(block_time as int, anc_emission_rate@)
            &&& cs.0 == (Config {
                contract_addr,
                owner_addr,
                aterra_contract: None,
                overseer_contract: None,
                interest_model: None,
                distribution_model: None,
                collector_contract: None,
                distributor_contract: None,
                stable_denom,
                max_borrow_factor,
            })
        },
{
    let mut i: usize = 0;
    let n: usize = funds.len();
    let mut amount: u128 = 0;
    let mut found = false;
    proof {
        assert(funds@.skip(0) =~= funds@);
    }
    while i < n
        invariant
            i <= n,
            n == funds@.len(),
            !found ==> initial_deposit_model(funds@, stable_denom@) == initial_deposit_model(
                funds@.skip(i as int),
                stable_denom@,
            ),
            !found ==> amount == 0,
            found ==> initial_deposit_model(funds@, stable_denom@) == amount as int,
        decreases n - i,
    {
        if !found {
            if funds[i].denom == stable_denom {
                amount = funds[i].amount;
                found = true;
            } else {
                proof {
                    assert(funds@.skip(i as int).skip(1) =~= funds@.skip(i as int + 1));
                }
            }
        }
        i = i + 1;
    }
    if amount != INITIAL_DEPOSIT_AMOUNT {
        return Err(Error::InitialFundsNotDeposited { required: INITIAL_DEPOSIT_AMOUNT });
    }
    let config = Config {
        contract_addr,
        owner_addr,
        aterra_contract: None,
        overseer_contract: None,
        interest_model: None,
        distribution_model: None,
        collector_contract: None,
        distributor_contract: None,
        stable_denom,
        max_borrow_factor,
    };
    let state = State::initial(block_time, anc_emission_rate);
    Ok((config, state))
}

/// Identifier of the pending receipt-token creation request whose
/// acknowledgment completes registration.
pub const REGISTER_ATERRA_REPLY_ID: u64 = 1;

/// Complete the second phase of market creation: an asynchronous
/// acknowledgment carries the created receipt-token contract's identity
/// (`None` when its payload could not be read) and registers it exactly
/// once.
pub fn reply(config: &mut Config, reply_id: u64, token_addr: Option<String>) -> (r: Result<
    (),
    Error,
>)
    ensures
        reply_id != REGISTER_ATERRA_REPLY_ID ==> (r == Err::<(), Error>(Error::InvalidReplyId)
            && *final(config) == *old(config)),
        (reply_id == REGISTER_ATERRA_REPLY_ID && token_addr is None) ==> (r == Err::<(), Error>(
            Error::InvalidReplyData,
        ) && *final(config) == *old(config)),
        (reply_id == REGISTER_ATERRA_REPLY_ID && token_addr is Some
            && old(config).aterra_contract is Some) ==> (r == Err::<(), Error>(Error::Unauthorized)
            && *final(config) == *old(config)),
        (reply_id == REGISTER_ATERRA_REPLY_ID && token_addr is Some
            && old(config).aterra_contract is None) ==> (r == Ok::<(), Error>(()) && *final(config)
            == (Config { aterra_contract: Some(token_addr->Some_0), ..*old(config) })),
{
    if reply_id != REGISTER_ATERRA_REPLY_ID {
        return Err(Error::InvalidReplyId);
    }
    match token_addr {
        Some(addr) => register_aterra(config, addr),
        None => Err(Error::InvalidReplyData),
    }
}

/// A receipt-token redemption authorized by the receive hook: who redeems,
/// and how many receipt tokens they sent in.
#[derive(Clone, Debug, PartialEq, Eq)]
pub struct RedeemRequest {
    pub redeemer: String,
    pub amount: u128,
}

/// Authorize a token receive hook: the hook must be the redeem request
/// (`hook_is_redeem_stable`, decoded by the caller) and the tokens must
/// come from the registered receipt-token contract; redemption itself is
/// outside this engine.
pub fn receive_cw20(
    config: &Config,
    token_sender: &String,
    hook_is_redeem_stable: bool,
    cw20_sender: String,
    amount: u128,
) -> (r: Result<RedeemRequest, Error>)
    ensures
        !hook_is_redeem_stable ==> r == Err::<RedeemRequest, Error>(
            Error::MissingRedeemStableHook,
        ),
        (hook_is_redeem_stable && (config.aterra_contract is None || (
        config.aterra_contract->Some_0)@ != token_sender@)) ==> r == Err::<RedeemRequest, Error>(
            Error::Unauthorized,
        ),
        (hook_is_redeem_stable && config.aterra_contract is Some && (
        config.aterra_contract->Some_0)@ == token_sender@) ==> r == Ok::<RedeemRequest, Error>(
            RedeemRequest { redeemer: cw20_sender, amount },
        ),
{
    if !hook_is_redeem_stable {
        return Err(Error::MissingRedeemStableHook);
    }
    match &config.aterra_contract {
        Some(aterra) => {
            if *aterra == *token_sender {
                Ok(RedeemRequest { redeemer: cw20_sender, amount })
            } else {
                Err(Error::Unauthorized)
            }
        },
        None => Err(Error::Unauthorized),
    }
}

/// Replace the emission rate as one migration step; everything else in the
/// ledger is kept bit for bit.
pub fn migrate(state: &mut State, anc_emission_rate: Decimal)
    ensures
        *final(state) == (State { anc_emission_rate, ..*old(state) }),
{
    state.anc_emission_rate = anc_emission_rate;
}

/// The ledger projected to `block_time` without committing: interest and
/// reward are recomputed as of the requested time from the supplied query
/// inputs, and the stored state is left untouched. A time before either
/// high-water mark is a temporal-ordering error.
pub fn query_state(state: &State, block_time: u64, accrual: AccrualInput) -> (r: Result<
    State,
    Error,
>)
    requires
        ((block_time as int) >= state@.last_interest_updated_time && (block_time as int)
            >= state@.last_reward_updated_time) ==> (interest_accrual_fits(
            state@,
            block_time as int,
            accrual.balance as int,
            accrual.aterra_supply as int,
            accrual.borrow_rate@,
            accrual.target_deposit_rate@,
        ) && reward_accrual_fits(
            interest_accrual_model(
                state@,
                block_time as int,
                accrual.balance as int,
                accrual.aterra_supply as int,
                accrual.borrow_rate@,
                accrual.target_deposit_rate@,
            ),
            block_time as int,
        )),
    ensures
        ((block_time as int) < state@.last_interest_updated_time || (block_time as int)
            < state@.last_reward_updated_time) ==> r == Err::<State, Error>(Error::TemporalOrder),
        ((block_time as int) >= state@.last_interest_updated_time && (block_time as int)
            >= state@.last_reward_updated_time) ==> {
            &&& r matches Ok(projected)
            &&& projected@ == reward_accrual_model(
                interest_accrual_model(
                    state@,
                    block_time as int,
                    accrual.balance as int,
                    accrual.aterra_supply as int,
                    accrual.borrow_rate@,
                    accrual.target_deposit_rate@,
                ),
                block_time as int,
            )
        },
{
    if block_time < state.last_interest_updated_time {
        return Err(Error::TemporalOrder);
    }
    if block_time < state.last_reward_updated_time {
        return Err(Error::TemporalOrder);
    }
    let mut projected = *state;
    let interest_result = compute_interest_raw(
        &mut projected,
        block_time,
        accrual.balance,
        accrual.aterra_supply,
        accrual.borrow_rate,
        accrual.target_deposit_rate,
    );
    match interest_result {
        Ok(_) => (),
        Err(_) => {
            return Err(Error::TemporalOrder);
        },
    }
    let reward_result = compute_reward(&mut projected, block_time);
    match reward_result {
        Ok(_) => (),
        Err(_) => {
            return Err(Error::TemporalOrder);
        },
    }
    Ok(projected)
}

/// The derived exchange-rate / receipt-supply pair for a requested time and
/// a hypothetical amount of interest already earmarked for distribution.
#[derive(Clone, Copy, Debug, PartialEq, Eq, Structural)]
pub struct EpochStateResponse {
    pub exchange_rate: Decimal,
    pub aterra_supply: u128,
}

/// The exchange rate a depositor or redeemer would see, read-only: with a
/// requested `block_time`, interest is first projected to that time on a
/// scratch copy using the supplied borrow and target rates; the rate is
/// then derived from the queried balance (gross: the earmarked
/// `distributed_interest` is deducted for accrual but still backs shares).
pub fn query_epoch_state(
    state: &State,
    block_time: Option<u64>,
    distributed_interest: u128,
    aterra_supply: u128,
    balance: u128,
    borrow_rate: Decimal,
    target_deposit_rate: Decimal,
) -> (r: Result<EpochStateResponse, Error>)
    requires
        distributed_interest <= balance,
        (block_time matches Some(bt) && (bt as int) >= state@.last_interest_updated_time)
            ==> interest_accrual_fits(
            state@,
            block_time->Some_0 as int,
            balance - distributed_interest,
            aterra_supply as int,
            borrow_rate@,
            target_deposit_rate@,
        ),
        exchange_rate_fits(
            projected_for_epoch_query(
                state@,
                block_time,
                balance - distributed_interest,
                aterra_supply as int,
                borrow_rate@,
                target_deposit_rate@,
            ).total_liabilities,
            projected_for_epoch_query(
                state@,
                block_time,
                balance - distributed_interest,
                aterra_supply as int,
                borrow_rate@,
                target_deposit_rate@,
            ).total_reserves,
            balance as int,
        ),
    ensures
        (block_time matches Some(bt) && (bt as int) < state@.last_interest_updated_time) ==> r
            == Err::<EpochStateResponse, Error>(Error::TemporalOrder),
        (block_time is None || (block_time->Some_0 as int)
            >= state@.last_interest_updated_time) ==> {
            let projected = projected_for_epoch_query(
                state@,
                block_time,
                balance - distributed_interest,
                aterra_supply as int,
                borrow_rate@,
                target_deposit_rate@,
            );
            &&& r matches Ok(resp)
            &&& resp.aterra_supply == aterra_supply
            &&& resp.exchange_rate@ == exchange_rate_model(
                projected.total_liabilities,
                projected.total_reserves,
                balance as int,
                aterra_supply as int,
            )
        },
{
    let net_balance = balance - distributed_interest;
    let mut projected = *state;
    if let Some(bt) = block_time {
        if bt < state.last_interest_updated_time {
            return Err(Error::TemporalOrder);
        }
        let interest_result = compute_interest_raw(
            &mut projected,
            bt,
            net_balance,
            aterra_supply,
            borrow_rate,
            target_deposit_rate,
        );
        match interest_result {
            Ok(_) => (),
            Err(_) => {
                return Err(Error::TemporalOrder);
            },
        }
    }
    let exchange_rate = compute_exchange_rate_raw(&projected, aterra_supply, balance);
    Ok(EpochStateResponse { exchange_rate, aterra_supply })
}

/// The state an epoch-state query reads the exchange rate from: with a
/// requested time, interest projected to it; without one, the stored state.
pub open spec fn projected_for_epoch_query(
    s: crate::state::StateModel,
    block_time: Option<u64>,
    net_balance: int,
    supply: int,
    rate: int,
    target: int,
) -> crate::state::StateModel {
    match block_time {
        Some(bt) => interest_accrual_model(s, bt as int, net_balance, supply, rate, target),
        None => s,
    }
}

/// Copy of an optional collaborator handle.
fn clone_handle(h: &Option<String>) -> (r: Option<String>)
    ensures
        r == *h,
{
    match h {
        Some(s) => Some(s.clone()),
        None => None,
    }
}

/// The current configuration, as the read-only configuration query reports
/// it.
pub fn query_config(config: &Config) -> (r: Config)
    ensures
        r == *config,
{
    Config {
        contract_addr: config.contract_addr.clone(),
        owner_addr: config.owner_addr.clone(),
        aterra_contract: clone_handle(&config.aterra_contract),
        overseer_contract: clone_handle(&config.overseer_contract),
        interest_model: clone_handle(&config.interest_model),
        distribution_model: clone_handle(&config.distribution_model),
        collector_contract: clone_handle(&config.collector_contract),
        distributor_contract: clone_handle(&config.distributor_contract),
        stable_denom: config.stable_denom.clone(),
        max_borrow_factor: config.max_borrow_factor,
    }
}

} // verus!
