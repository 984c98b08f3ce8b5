//! Laws of the accrual engines, stated and proved over the integer model
//! that the executable functions' contracts are written in.

use vstd::prelude::*;

use crate::decimal::FRACTIONAL;
use crate::epoch::reserve_skim_model;
use crate::exchange::exchange_rate_model;
use crate::interest::interest_accrual_model;
use crate::reward::reward_accrual_model;
use crate::state::StateModel;
use vstd::arithmetic::div_mod::lemma_div_is_ordered;
use vstd::arithmetic::div_mod::lemma_div_multiples_vanish;
use vstd::arithmetic::div_mod::lemma_div_pos_is_pos;
use vstd::arithmetic::div_mod::lemma_fundamental_div_mod;
use vstd::arithmetic::div_mod::lemma_mod_bound;
use vstd::arithmetic::mul::lemma_mul_inequality;
use vstd::arithmetic::mul::lemma_mul_nonnegative;

verus! {

/// Monotonicity of interest accrual: any accrual step at or after the
/// high-water mark, with a non-negative borrow rate, never decreases the
/// global interest index, leaves the reward side untouched and advances the
/// interest mark to exactly the supplied time. Sequences of accrual calls
/// with non-decreasing timestamps compose from this single step.
pub proof fn lemma_interest_index_monotone(
    s: StateModel,
    now: int,
    balance: int,
    supply: int,
    rate: int,
    target: int,
)
    requires
        s.global_interest_index >= 0,
        rate >= 0,
        now >= s.last_interest_updated_time,
    ensures
        interest_accrual_model(s, now, balance, supply, rate, target).global_interest_index
            >= s.global_interest_index,
        interest_accrual_model(s, now, balance, supply, rate, target).global_reward_index
            == s.global_reward_index,
        interest_accrual_model(s, now, balance, supply, rate, target).last_reward_updated_time
            == s.last_reward_updated_time,
        interest_accrual_model(s, now, balance, supply, rate, target).last_interest_updated_time
            == now,
{
    if now == s.last_interest_updated_time || s.total_liabilities == 0 {
    } else {
        let passed = now - s.last_interest_updated_time;
        let factor = rate * passed;
        lemma_mul_nonnegative(rate, passed);
        lemma_mul_inequality(
            FRACTIONAL as int,
            (FRACTIONAL as int) + factor,
            s.global_interest_index,
        );
        lemma_div_is_ordered(
            (FRACTIONAL as int) * s.global_interest_index,
            ((FRACTIONAL as int) + factor) * s.global_interest_index,
            FRACTIONAL as int,
        );
        lemma_div_multiples_vanish(s.global_interest_index, FRACTIONAL as int);
    }
}

/// Monotonicity of reward accrual: any accrual step at or after the
/// high-water mark, with a non-negative emission rate, never decreases the
/// global reward index, leaves the interest side untouched and advances the
/// reward mark to exactly the supplied time.
pub proof fn lemma_reward_index_monotone(s: StateModel, now: int)
    requires
        s.anc_emission_rate >= 0,
        s.total_liabilities >= 0,
        now >= s.last_reward_updated_time,
    ensures
        reward_accrual_model(s, now).global_reward_index >= s.global_reward_index,
        reward_accrual_model(s, now).global_interest_index == s.global_interest_index,
        reward_accrual_model(s, now).total_liabilities == s.total_liabilities,
        reward_accrual_model(s, now).total_reserves == s.total_reserves,
        reward_accrual_model(s, now).last_interest_updated_time == s.last_interest_updated_time,
        reward_accrual_model(s, now).last_reward_updated_time == now,
{
    if now == s.last_reward_updated_time || s.total_liabilities == 0 {
    } else {
        let passed = now - s.last_reward_updated_time;
        lemma_mul_nonnegative(s.anc_emission_rate, passed);
        lemma_mul_nonnegative(s.anc_emission_rate * passed, FRACTIONAL as int);
        lemma_div_pos_is_pos(
            s.anc_emission_rate * passed * (FRACTIONAL as int),
            s.total_liabilities,
        );
    }
}

/// One interest accrual call of a sequence: the timestamp it is made at and
/// the inputs it is given.
pub ghost struct InterestCall {
    pub now: int,
    pub balance: int,
    pub supply: int,
    pub rate: int,
    pub target: int,
}

/// The calls carry non-decreasing timestamps, starting at or after the
/// state's high-water mark, and non-negative borrow rates.
pub open spec fn interest_calls_ordered(s: StateModel, calls: Seq<InterestCall>) -> bool
    decreases calls.len(),
{
    calls.len() == 0 || {
        &&& calls[0].now >= s.last_interest_updated_time
        &&& calls[0].rate >= 0
        &&& interest_calls_ordered(
            interest_accrual_model(
                s,
                calls[0].now,
                calls[0].balance,
                calls[0].supply,
                calls[0].rate,
                calls[0].target,
            ),
            calls.skip(1),
        )
    }
}

/// The state after a whole sequence of interest accrual calls.
pub open spec fn apply_interest_calls(s: StateModel, calls: Seq<InterestCall>) -> StateModel
    decreases calls.len(),
{
    if calls.len() == 0 {
        s
    } else {
        apply_interest_calls(
            interest_accrual_model(
                s,
                calls[0].now,
                calls[0].balance,
                calls[0].supply,
                calls[0].rate,
                calls[0].target,
            ),
            calls.skip(1),
        )
    }
}

/// Monotonicity over whole call sequences: any sequence of interest accrual
/// calls with non-decreasing timestamps and non-negative rates never
/// decreases the global interest index.
pub proof fn lemma_interest_index_monotone_sequence(s: StateModel, calls: Seq<InterestCall>)
    requires
        s.global_interest_index >= 0,
        interest_calls_ordered(s, calls),
    ensures
        apply_interest_calls(s, calls).global_interest_index >= s.global_interest_index,
    decreases calls.len(),
{
    if calls.len() > 0 {
        let s1 = interest_accrual_model(
            s,
            calls[0].now,
            calls[0].balance,
            calls[0].supply,
            calls[0].rate,
            calls[0].target,
        );
        lemma_interest_index_monotone(
            s,
            calls[0].now,
            calls[0].balance,
            calls[0].supply,
            calls[0].rate,
            calls[0].target,
        );
        lemma_interest_index_monotone_sequence(s1, calls.skip(1));
    }
}

/// The state after reward accrual calls at each of the given times.
pub open spec fn apply_reward_calls(s: StateModel, times: Seq<int>) -> StateModel
    decreases times.len(),
{
    if times.len() == 0 {
        s
    } else {
        apply_reward_calls(reward_accrual_model(s, times[0]), times.skip(1))
    }
}

/// The times are non-decreasing, starting at or after the state's reward
/// high-water mark.
pub open spec fn reward_times_ordered(s: StateModel, times: Seq<int>) -> bool
    decreases times.len(),
{
    times.len() == 0 || {
        &&& times[0] >= s.last_reward_updated_time
        &&& reward_times_ordered(reward_accrual_model(s, times[0]), times.skip(1))
    }
}

/// Monotonicity over whole call sequences: any sequence of reward accrual
/// calls with non-decreasing timestamps never decreases the global reward
/// index (the emission rate is non-negative by construction and unchanged
/// by accrual).
pub proof fn lemma_reward_index_monotone_sequence(s: StateModel, times: Seq<int>)
    requires
        s.anc_emission_rate >= 0,
        s.total_liabilities >= 0,
        reward_times_ordered(s, times),
    ensures
        apply_reward_calls(s, times).global_reward_index >= s.global_reward_index,
    decreases times.len(),
{
    if times.len() > 0 {
        lemma_reward_index_monotone(s, times[0]);
        lemma_reward_index_monotone_sequence(reward_accrual_model(s, times[0]), times.skip(1));
    }
}

/// Idempotence of interest accrual at a point in time: a second accrual at
/// the same timestamp, whatever inputs it is given, is an exact no-op — the
/// first call performs all the accrual.
pub proof fn lemma_interest_accrual_idempotent(
    s: StateModel,
    now: int,
    balance1: int,
    supply1: int,
    rate1: int,
    target1: int,
    balance2: int,
    supply2: int,
    rate2: int,
    target2: int,
)
    ensures
        interest_accrual_model(
            interest_accrual_model(s, now, balance1, supply1, rate1, target1),
            now,
            balance2,
            supply2,
            rate2,
            target2,
        ) == interest_accrual_model(s, now, balance1, supply1, rate1, target1),
{
}

/// Idempotence of reward accrual at a point in time: a second accrual at
/// the same timestamp is an exact no-op.
pub proof fn lemma_reward_accrual_idempotent(s: StateModel, now: int)
    ensures
        reward_accrual_model(reward_accrual_model(s, now), now) == reward_accrual_model(s, now),
{
}

/// Zero-liability safety of interest accrual: with no outstanding debt an
/// accrual step changes nothing but the interest high-water mark — the
/// index, the balances and the snapshot stay bit for bit.
pub proof fn lemma_interest_zero_liabilities(
    s: StateModel,
    now: int,
    balance: int,
    supply: int,
    rate: int,
    target: int,
)
    requires
        s.total_liabilities == 0,
        now >= s.last_interest_updated_time,
    ensures
        interest_accrual_model(s, now, balance, supply, rate, target) == (StateModel {
            last_interest_updated_time: now,
            ..s
        }),
{
}

/// Zero-liability safety of reward accrual: with no outstanding debt there
/// is no share denominator, so only the reward high-water mark advances and
/// the reward index stays exactly where it was.
pub proof fn lemma_reward_zero_liabilities(s: StateModel, now: int)
    requires
        s.total_liabilities == 0,
        now >= s.last_reward_updated_time,
    ensures
        reward_accrual_model(s, now) == (StateModel { last_reward_updated_time: now, ..s }),
{
}

/// Bootstrap exchange rate: with no receipt tokens outstanding the rate is
/// exactly one, whatever the balance, liabilities and reserves are.
pub proof fn lemma_bootstrap_exchange_rate(liabilities: int, reserves: int, balance: int)
    ensures
        exchange_rate_model(liabilities, reserves, balance, 0) == FRACTIONAL as int,
{
}

/// Reserve skim boundedness: for every state, the reserves left after the
/// skim are non-negative and the transferred whole-unit amount never
/// exceeds the on-hand balance.
pub proof fn lemma_reserve_skim_bounded(s: StateModel, balance: int)
    requires
        s.total_reserves >= 0,
        balance >= 0,
    ensures
        reserve_skim_model(s, balance).0.total_reserves >= 0,
        0 <= reserve_skim_model(s, balance).1 <= balance,
{
    lemma_fundamental_div_mod(s.total_reserves, FRACTIONAL as int);
    lemma_mod_bound(s.total_reserves, FRACTIONAL as int);
    lemma_div_pos_is_pos(s.total_reserves, FRACTIONAL as int);
}

} // verus!
