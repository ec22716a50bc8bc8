//! Rank resolution: the effective rank of a candidate.

use crate::config::Config;
use crate::records::{Tier, ADMIRAL_RANK, GUEST_RANK};
use vstd::prelude::*;

verus! {

/// The effective rank of a candidate that campaigns for `intended` and holds
/// `voting_power`: the intended tier itself where the voting power exceeds
/// that tier's threshold, and guest otherwise. No tier in between is ever
/// granted.
pub open spec fn resolve_rank(config: Config, intended: Tier, voting_power: u64) -> Tier {
    match config.threshold(intended) {
        Some(threshold) => if voting_power > threshold {
            intended
        } else {
            GUEST_RANK
        },
        None => GUEST_RANK,
    }
}

/// The effective rank is the intended rank or guest, and always a tier.
pub proof fn lemma_rank_is_intended_or_guest(config: Config, intended: Tier, voting_power: u64)
    ensures
        resolve_rank(config, intended, voting_power) == intended || resolve_rank(
            config,
            intended,
            voting_power,
        ) == GUEST_RANK,
        resolve_rank(config, intended, voting_power) <= ADMIRAL_RANK,
{
}

/// A voting power that does not exceed the threshold of the intended tier
/// earns the rank of guest, however many lower thresholds it exceeds.
pub proof fn lemma_no_lower_tier_is_granted(config: Config, intended: Tier, voting_power: u64)
    requires
        config.threshold(intended) matches Some(threshold) ==> voting_power <= threshold,
    ensures
        resolve_rank(config, intended, voting_power) == GUEST_RANK,
{
}

} // verus!
