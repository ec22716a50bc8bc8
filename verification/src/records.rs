//! The records that the registry keeps, and the ways an operation can fail.

use vstd::prelude::*;

verus! {

/// Identifies an account.
pub type AccountId = u64;

/// An amount of funds.
pub type Amount = u64;

/// A reading of the logical clock, in ticks.
pub type BlockHeight = u64;

/// A governance rank. The six valid tiers are `GUEST_RANK` to `ADMIRAL_RANK`;
/// a larger number names no tier.
pub type Tier = u16;

/// The highest tier.
pub const ADMIRAL_RANK: Tier = 5;

pub const SECTION31_RANK: Tier = 4;

pub const CAPTAIN_RANK: Tier = 3;

pub const ENGINEER_RANK: Tier = 2;

pub const CREW_RANK: Tier = 1;

/// The lowest tier: the rank of every account that has not earned another.
pub const GUEST_RANK: Tier = 0;

/// What the registry knows about one account as a candidate.
#[derive(Clone, Copy, Debug, PartialEq, Eq, Structural)]
pub struct Candidate {
    /// The effective rank, as resolved from the other two fields.
    pub current_rank: Tier,
    /// The rank the account campaigns for.
    pub intended_rank: Tier,
    /// The weighted contributions of the votes cast for the account.
    pub voting_power: u64,
}

impl Candidate {
    /// The record of an account that has never declared a candidacy.
    pub open spec fn blank() -> Candidate {
        Candidate { current_rank: GUEST_RANK, intended_rank: GUEST_RANK, voting_power: 0 }
    }
}

impl Default for Candidate {
    fn default() -> (candidate: Candidate)
        ensures
            candidate == Candidate::blank(),
    {
        Candidate { current_rank: GUEST_RANK, intended_rank: GUEST_RANK, voting_power: 0 }
    }
}

/// Funds that a voter has locked behind a candidate.
#[derive(Clone, Copy, Debug, PartialEq, Eq, Structural)]
pub struct Vote {
    /// The candidate that the vote backs.
    pub candidate: AccountId,
    /// The funds locked under the vote, top-ups included.
    pub stake: Amount,
    /// The clock reading at which the lock began.
    pub created_at: BlockHeight,
    /// The number of ticks for which the stake stays locked.
    pub lock_duration: BlockHeight,
}

/// Why an operation was turned down. A refused operation changes nothing.
#[derive(Clone, Copy, Debug, PartialEq, Eq, Structural)]
pub enum Error {
    /// The intended rank lies above the highest tier.
    InvalidRank,
    /// The account voted for campaigns for no rank above guest.
    NoSuchCandidate,
    /// The stake is below the minimum stake.
    StakeTooLow,
    /// The lock is shorter than the minimum lock.
    LockTooShort,
    /// The voter's slot counter cannot be incremented.
    CounterOverflow,
    /// The currency service did not hand over the stake.
    InsufficientFunds,
    /// The caller holds no vote for the candidate.
    NoSuchVote,
    /// The lock on the vote has not run out.
    StillLocked,
    /// A stake, a voting power or a payout would not fit in 64 bits.
    AmountOverflow,
    /// The candidate holds less voting power than the vote accounts for.
    PowerUnderflow,
    /// The currency service did not accept the payout.
    DepositRefused,
}

} // verus!
