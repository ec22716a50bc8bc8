//! Laws that relate the operations of the registry to each other.

use crate::rank::resolve_rank;
use crate::records::{AccountId, BlockHeight, Error, Tier, Vote, ADMIRAL_RANK, GUEST_RANK};
use crate::registry::Registry;
use crate::stake::payout_amount;
use vstd::arithmetic::div_mod::{lemma_fundamental_div_mod, lemma_fundamental_div_mod_converse};
use vstd::prelude::*;

verus! {

/// Where the remainders of `a` and `b` by `d` together stay below `d`, the
/// quotient of the sum is the sum of the quotients.
proof fn lemma_quotients_add(a: nat, b: nat, d: nat)
    requires
        d > 0,
        a % d + b % d < d,
    ensures
        (a + b) / d == a / d + b / d,
{
    let di = d as int;
    let (qa, ra) = (a as int / di, a as int % di);
    let (qb, rb) = (b as int / di, b as int % di);
    lemma_fundamental_div_mod(a as int, di);
    lemma_fundamental_div_mod(b as int, di);
    let q = qa + qb;
    let r = ra + rb;
    assert(a + b == q * di + r) by (nonlinear_arith)
        requires
            a == di * qa + ra,
            b == di * qb + rb,
            q == qa + qb,
            r == ra + rb,
    ;
    lemma_fundamental_div_mod_converse((a + b) as int, di, q, r);
}

/// Two votes of one voter for one candidate, both with the same lock, leave
/// the registry as one vote with the sum of the two stakes does: one slot,
/// one vote that began with the first of the two, and the same voting power
/// for the candidate. This holds where splitting the stake loses no whole
/// minimum stake to rounding, which is what the third condition says.
pub proof fn lemma_two_votes_equal_one(
    registry: Registry,
    caller: AccountId,
    candidate: AccountId,
    first: u64,
    second: u64,
    lock_duration: BlockHeight,
    now: BlockHeight,
    later: BlockHeight,
)
    requires
        registry.wf(),
        registry.vote_error(caller, candidate, first, lock_duration) is None,
        registry.voted(caller, candidate, first, lock_duration, now).vote_error(
            caller,
            candidate,
            second,
            lock_duration,
        ) is None,
        first % registry.config.min_stake + second % registry.config.min_stake
            < registry.config.min_stake,
    ensures
        first + second <= u64::MAX,
        registry.vote_error(caller, candidate, (first + second) as u64, lock_duration) is None,
        registry.voted(caller, candidate, first, lock_duration, now).voted(
            caller,
            candidate,
            second,
            lock_duration,
            later,
        ) == registry.voted(caller, candidate, (first + second) as u64, lock_duration, now),
{
    registry.lemma_voted_wf(caller, candidate, first, lock_duration, now);
    let min_stake = registry.config.min_stake as nat;
    let locks = lock_duration as nat / registry.config.min_lock as nat;
    lemma_quotients_add(first as nat, second as nat, min_stake);
    let whole_first = first as nat / min_stake;
    let whole_second = second as nat / min_stake;
    assert((whole_first + whole_second) * (locks * locks) == whole_first * (locks * locks)
        + whole_second * (locks * locks)) by (nonlinear_arith);
    assert(registry.power_of((first + second) as u64, lock_duration) == registry.power_of(
        first,
        lock_duration,
    ) + registry.power_of(second, lock_duration));
}

/// A vote cannot be withdrawn until more ticks than its lock have passed
/// since it was opened: up to and at the last tick of the lock the
/// withdrawal is refused as still locked, and from the tick after that it no
/// longer is. At that tick, as at any later one, it goes through wherever
/// the payout fits in an amount and the candidate still holds the voting
/// power that the vote accounts for.
pub proof fn lemma_lock_ends_after_its_last_tick(
    registry: Registry,
    caller: AccountId,
    candidate: AccountId,
    now: BlockHeight,
)
    requires
        registry.wf(),
        registry.vote(caller, candidate) is Some,
    ensures
        ({
            let held = registry.vote(caller, candidate)->Some_0;
            let elapsed = now - held.created_at;
            &&& elapsed <= held.lock_duration ==> registry.cancel_error(caller, candidate, now)
                == Some(Error::StillLocked)
            &&& elapsed >= held.lock_duration + 1 ==> registry.cancel_error(caller, candidate, now)
                != Some(Error::StillLocked)
            &&& elapsed >= held.lock_duration + 1 && payout_amount(
                held.stake as nat,
                elapsed as nat,
            ) <= u64::MAX && registry.candidate(candidate).voting_power >= registry.power_of(
                held.stake,
                held.lock_duration,
            ) ==> registry.cancel_error(caller, candidate, now) is None
        }),
{
}

/// A first vote of `stake` that is withdrawn `elapsed` ticks later, after the
/// lock has run out, pays the stake and `elapsed * stake * 195069 / 10^13`,
/// rounded down, and leaves the candidate, the votes and the slot index as
/// they were before the vote. Only the voter's slot counter has moved on.
pub proof fn lemma_round_trip(
    registry: Registry,
    caller: AccountId,
    candidate: AccountId,
    stake: u64,
    lock_duration: BlockHeight,
    now: BlockHeight,
    later: BlockHeight,
)
    requires
        registry.wf(),
        registry.vote_error(caller, candidate, stake, lock_duration) is None,
        registry.vote(caller, candidate) is None,
        later - now > lock_duration,
        payout_amount(stake as nat, (later - now) as nat) <= u64::MAX,
    ensures
        ({
            let locked = registry.voted(caller, candidate, stake, lock_duration, now);
            let released = locked.cancelled(caller, candidate);
            &&& locked.cancel_error(caller, candidate, later) is None
            &&& locked.payout_due(caller, candidate, later) == stake + ((later - now) * stake
                * 195069) / 10_000_000_000_000
            &&& released.candidates == registry.candidates
            &&& released.votes == registry.votes
            &&& released.slot_index == registry.slot_index
            &&& released.count(caller) == registry.count(caller) + 1
        }),
{
}

/// A candidate for admiral whose voting power does not exceed the admiral
/// threshold is a guest, whichever lower thresholds the voting power exceeds:
/// with more than the engineer threshold asks for, the candidate is still no
/// engineer.
pub proof fn lemma_admiral_or_guest(registry: Registry, account: AccountId)
    requires
        registry.wf(),
        registry.candidate(account).intended_rank == ADMIRAL_RANK,
        registry.candidate(account).voting_power <= registry.config.admiral_threshold,
    ensures
        registry.candidate(account).current_rank == GUEST_RANK,
{
}

/// The effective rank of every account is the one that its intended rank and
/// its voting power resolve to.
pub proof fn lemma_rank_is_resolved(registry: Registry, account: AccountId)
    requires
        registry.wf(),
    ensures
        registry.candidate(account).current_rank == resolve_rank(
            registry.config,
            registry.candidate(account).intended_rank,
            registry.candidate(account).voting_power,
        ),
{
}

/// No operation deletes a candidate record.
pub proof fn lemma_candidates_stay(
    registry: Registry,
    caller: AccountId,
    candidate: AccountId,
    intended: Tier,
    stake: u64,
    lock_duration: BlockHeight,
    now: BlockHeight,
    account: AccountId,
)
    requires
        registry.candidates.contains_key(account),
    ensures
        registry.declared(caller, intended).candidates.contains_key(account),
        registry.voted(caller, candidate, stake, lock_duration, now).candidates.contains_key(
            account,
        ),
        registry.cancelled(caller, candidate).candidates.contains_key(account),
{
}

/// An accepted vote leaves every vote in its slot, with its candidate, its
/// start and its lock, and takes nothing from its stake.
pub proof fn lemma_stakes_only_grow(
    registry: Registry,
    caller: AccountId,
    candidate: AccountId,
    stake: u64,
    lock_duration: BlockHeight,
    now: BlockHeight,
    voter: AccountId,
    slot: u64,
)
    requires
        registry.wf(),
        registry.vote_error(caller, candidate, stake, lock_duration) is None,
        registry.votes.contains_key((voter, slot)),
    ensures
        ({
            let before = registry.votes[(voter, slot)];
            let after = registry.voted(caller, candidate, stake, lock_duration, now);
            &&& after.votes.contains_key((voter, slot))
            &&& after.votes[(voter, slot)] == Vote {
                stake: after.votes[(voter, slot)].stake,
                ..before
            }
            &&& after.votes[(voter, slot)].stake >= before.stake
            &&& after.votes[(voter, slot)].stake > before.stake ==> voter == caller
                && before.candidate == candidate
        }),
{
}

/// Declaring the same rank a second time changes nothing.
pub proof fn lemma_declaring_again_changes_nothing(
    registry: Registry,
    caller: AccountId,
    intended: Tier,
)
    requires
        intended <= ADMIRAL_RANK,
    ensures
        registry.declared(caller, intended).declared(caller, intended) == registry.declared(
            caller,
            intended,
        ),
{
}

} // verus!
