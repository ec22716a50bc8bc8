//! Stake accounting: the weight that a locked stake lends a candidate, and
//! what a stake has earned when it is released.

use crate::records::Amount;
use vstd::arithmetic::div_mod::{
    lemma_div_multiples_vanish, lemma_fundamental_div_mod, lemma_hoist_over_denominator,
};
use vstd::prelude::*;

verus! {

/// A stake earns `REWARD_NUMERATOR / REWARD_DENOMINATOR` of itself per tick:
/// a tenth in 5 126 400 ticks, the ticks of a year at six seconds each.
pub const REWARD_NUMERATOR: u64 = 195069;

pub const REWARD_DENOMINATOR: u64 = 10_000_000_000_000;

/// The voting power that a stake locked for `lock_duration` ticks lends: the
/// whole minimum stakes in it, times the square of the whole minimum locks in
/// the duration.
pub open spec fn voting_power_delta(
    stake: nat,
    lock_duration: nat,
    min_stake: nat,
    min_lock: nat,
) -> nat
    recommends
        min_stake > 0,
        min_lock > 0,
{
    (stake / min_stake) * ((lock_duration / min_lock) * (lock_duration / min_lock))
}

/// What `principal` has earned after `elapsed_blocks` ticks, rounded down.
pub open spec fn reward(principal: nat, elapsed_blocks: nat) -> nat {
    (elapsed_blocks * principal * REWARD_NUMERATOR as nat) / (REWARD_DENOMINATOR as nat)
}

/// The principal together with what it has earned.
pub open spec fn payout_amount(principal: nat, elapsed_blocks: nat) -> nat {
    principal + reward(principal, elapsed_blocks)
}

/// A stake of `m` minimum stakes locked for `k` minimum locks lends
/// `m * k * k`.
pub proof fn lemma_power_of_whole_units(m: nat, k: nat, min_stake: nat, min_lock: nat)
    requires
        min_stake > 0,
        min_lock > 0,
    ensures
        voting_power_delta(m * min_stake, k * min_lock, min_stake, min_lock) == m * k * k,
{
    lemma_div_multiples_vanish(m as int, min_stake as int);
    lemma_div_multiples_vanish(k as int, min_lock as int);
    assert(m * min_stake == min_stake * m) by (nonlinear_arith);
    assert(k * min_lock == min_lock * k) by (nonlinear_arith);
    assert(m * (k * k) == m * k * k) by (nonlinear_arith);
}

/// A lock shorter than the minimum lock lends nothing.
pub proof fn lemma_short_lock_lends_nothing(
    stake: nat,
    lock_duration: nat,
    min_stake: nat,
    min_lock: nat,
)
    requires
        lock_duration < min_lock,
    ensures
        voting_power_delta(stake, lock_duration, min_stake, min_lock) == 0,
{
    assert(lock_duration / min_lock == 0) by (nonlinear_arith)
        requires
            lock_duration < min_lock,
    ;
    assert((stake / min_stake) * (0 * 0) == 0) by (nonlinear_arith);
}

/// The payout of `principal` after `elapsed_blocks` ticks, or `None` where it
/// does not fit in an `Amount`.
pub fn payout(principal: Amount, elapsed_blocks: u64) -> (paid: Option<Amount>)
    ensures
        paid == if payout_amount(principal as nat, elapsed_blocks as nat) <= u64::MAX {
            Some(payout_amount(principal as nat, elapsed_blocks as nat) as u64)
        } else {
            None
        },
{
    let numerator = REWARD_NUMERATOR as u128;
    let denominator = REWARD_DENOMINATOR as u128;
    assert(elapsed_blocks as u128 * principal as u128 <= 0xffff_ffff_ffff_ffff
        * 0xffff_ffff_ffff_ffff) by (nonlinear_arith);
    let staked_ticks = elapsed_blocks as u128 * principal as u128;
    // The product with the numerator may leave 128 bits, so the quotient and
    // the remainder by the denominator are scaled one by one.
    let whole = staked_ticks / denominator;
    let rest = staked_ticks % denominator;
    let earned = whole * numerator + rest * numerator / denominator;
    proof {
        let d = denominator as int;
        let n = numerator as int;
        let x = staked_ticks as int;
        lemma_fundamental_div_mod(x, d);
        assert(x * n == (x % d) * n + (x / d) * n * d) by (nonlinear_arith)
            requires
                x == d * (x / d) + x % d,
        ;
        lemma_hoist_over_denominator((x % d) * n, (x / d) * n, d as nat);
    }
    let total = earned + principal as u128;
    if total <= u64::MAX as u128 {
        Some(total as u64)
    } else {
        None
    }
}

} // verus!
