//! The registry as a mathematical value: its four tables, what makes them
//! consistent, and what each operation turns them into.

use crate::config::Config;
use crate::rank::resolve_rank;
use crate::records::{
    AccountId, BlockHeight, Candidate, Error, Tier, Vote, ADMIRAL_RANK, GUEST_RANK,
};
use crate::stake::{payout_amount, voting_power_delta};
use vstd::prelude::*;

verus! {

/// The state of a registry.
///
/// A voter's votes sit in slots numbered from 1 in the order in which the
/// voter first backed each candidate. A slot that a cancelled vote leaves
/// behind stays empty: the counter of a voter never goes down, and no slot
/// number is handed out twice.
#[verifier::ext_equal]
pub struct Registry {
    /// The parameters that the registry was set up with.
    pub config: Config,
    /// The candidate record of every account that has declared a candidacy.
    pub candidates: Map<AccountId, Candidate>,
    /// The active votes, by voter and slot.
    pub votes: Map<(AccountId, u64), Vote>,
    /// The number of slots handed out to each voter so far.
    pub slot_count: Map<AccountId, u64>,
    /// The slot of the active vote of each voter for each candidate.
    pub slot_index: Map<(AccountId, AccountId), u64>,
}

impl Registry {
    /// The registry that holds nothing yet.
    pub open spec fn empty(config: Config) -> Registry {
        Registry {
            config,
            candidates: Map::empty(),
            votes: Map::empty(),
            slot_count: Map::empty(),
            slot_index: Map::empty(),
        }
    }

    /// The candidate record of `account`; blank until the account declares.
    pub open spec fn candidate(self, account: AccountId) -> Candidate {
        if self.candidates.contains_key(account) {
            self.candidates[account]
        } else {
            Candidate::blank()
        }
    }

    /// The number of slots handed out to `voter` so far.
    pub open spec fn count(self, voter: AccountId) -> u64 {
        if self.slot_count.contains_key(voter) {
            self.slot_count[voter]
        } else {
            0
        }
    }

    /// The slot of the vote of `voter` for `candidate`, or 0 where the voter
    /// holds none.
    pub open spec fn slot(self, voter: AccountId, candidate: AccountId) -> u64 {
        if self.slot_index.contains_key((voter, candidate)) {
            self.slot_index[(voter, candidate)]
        } else {
            0
        }
    }

    /// The active vote of `voter` for `candidate`.
    pub open spec fn vote(self, voter: AccountId, candidate: AccountId) -> Option<Vote> {
        let slot = self.slot(voter, candidate);
        if slot > 0 && self.votes.contains_key((voter, slot)) {
            Some(self.votes[(voter, slot)])
        } else {
            None
        }
    }

    /// The voting power that `stake`, locked for `lock_duration`, lends under
    /// the parameters of this registry.
    pub open spec fn power_of(self, stake: u64, lock_duration: BlockHeight) -> nat {
        voting_power_delta(
            stake as nat,
            lock_duration as nat,
            self.config.min_stake as nat,
            self.config.min_lock as nat,
        )
    }

    /// The record `record` with its voting power set to `voting_power` and
    /// its effective rank resolved anew.
    pub open spec fn reweighed(self, record: Candidate, voting_power: u64) -> Candidate {
        Candidate {
            current_rank: resolve_rank(self.config, record.intended_rank, voting_power),
            intended_rank: record.intended_rank,
            voting_power,
        }
    }

    /// The entry of the slot index for `(voter, candidate)` names a slot that
    /// was handed out to the voter and holds a vote for that candidate.
    pub open spec fn index_entry_holds(self, voter: AccountId, candidate: AccountId) -> bool {
        let slot = self.slot_index[(voter, candidate)];
        &&& 1 <= slot <= self.count(voter)
        &&& self.votes.contains_key((voter, slot))
        &&& self.votes[(voter, slot)].candidate == candidate
    }

    /// The vote in `slot` of `voter` is the one that the slot index names for
    /// its candidate, it meets both minimums, and its candidate has a record.
    pub open spec fn vote_entry_holds(self, voter: AccountId, slot: u64) -> bool {
        let vote = self.votes[(voter, slot)];
        &&& self.slot_index.contains_key((voter, vote.candidate))
        &&& self.slot_index[(voter, vote.candidate)] == slot
        &&& vote.stake >= self.config.min_stake
        &&& vote.lock_duration >= self.config.min_lock
        &&& self.candidates.contains_key(vote.candidate)
    }

    /// The record of `account` campaigns for a tier, and its effective rank
    /// is the one that its intended rank and voting power resolve to.
    pub open spec fn candidate_entry_holds(self, account: AccountId) -> bool {
        let record = self.candidates[account];
        &&& record.intended_rank <= ADMIRAL_RANK
        &&& record.current_rank == resolve_rank(
            self.config,
            record.intended_rank,
            record.voting_power,
        )
    }

    /// The tables are consistent with each other and with the parameters,
    /// and the votes are finitely many.
    pub open spec fn wf(self) -> bool {
        &&& self.config.valid()
        &&& self.votes.dom().finite()
        &&& forall|account: AccountId| #[trigger]
            self.candidates.contains_key(account) ==> self.candidate_entry_holds(account)
        &&& forall|voter: AccountId, candidate: AccountId| #[trigger]
            self.slot_index.contains_key((voter, candidate)) ==> self.index_entry_holds(
                voter,
                candidate,
            )
        &&& forall|voter: AccountId, slot: u64| #[trigger]
            self.votes.contains_key((voter, slot)) ==> self.vote_entry_holds(voter, slot)
    }

    /// The registry after `caller` has declared a candidacy for `intended`.
    pub open spec fn declared(self, caller: AccountId, intended: Tier) -> Registry {
        let record = Candidate {
            current_rank: resolve_rank(self.config, intended, self.candidate(caller).voting_power),
            intended_rank: intended,
            voting_power: self.candidate(caller).voting_power,
        };
        Registry { candidates: self.candidates.insert(caller, record), ..self }
    }

    /// The first reason, if any, for which a vote of `caller` for `candidate`
    /// is turned down before the stake is asked for.
    pub open spec fn vote_error(
        self,
        caller: AccountId,
        candidate: AccountId,
        stake: u64,
        lock_duration: BlockHeight,
    ) -> Option<Error> {
        if self.candidate(candidate).intended_rank <= GUEST_RANK {
            Some(Error::NoSuchCandidate)
        } else if stake < self.config.min_stake {
            Some(Error::StakeTooLow)
        } else if lock_duration < self.config.min_lock {
            Some(Error::LockTooShort)
        } else if self.count(caller) == u64::MAX {
            Some(Error::CounterOverflow)
        } else if self.candidate(candidate).voting_power + self.power_of(stake, lock_duration)
            > u64::MAX {
            Some(Error::AmountOverflow)
        } else if self.vote(caller, candidate) matches Some(held) && held.stake + stake
            > u64::MAX {
            Some(Error::AmountOverflow)
        } else {
            None
        }
    }

    /// The registry after an accepted vote: the stake is added to the vote
    /// that `caller` holds for `candidate`, which keeps its slot, its start
    /// and its lock, or it opens a vote in the voter's next slot; either way
    /// the candidate gains the voting power that the stake lends under the
    /// lock given with it.
    pub open spec fn voted(
        self,
        caller: AccountId,
        candidate: AccountId,
        stake: u64,
        lock_duration: BlockHeight,
        now: BlockHeight,
    ) -> Registry {
        let backed = self.reweighed(
            self.candidate(candidate),
            (self.candidate(candidate).voting_power + self.power_of(stake, lock_duration)) as u64,
        );
        let slot = self.slot(caller, candidate);
        if slot > 0 {
            let held = self.votes[(caller, slot)];
            Registry {
                candidates: self.candidates.insert(candidate, backed),
                votes: self.votes.insert(
                    (caller, slot),
                    Vote { stake: (held.stake + stake) as u64, ..held },
                ),
                ..self
            }
        } else {
            let fresh = (self.count(caller) + 1) as u64;
            Registry {
                candidates: self.candidates.insert(candidate, backed),
                votes: self.votes.insert(
                    (caller, fresh),
                    Vote { candidate, stake, created_at: now, lock_duration },
                ),
                slot_count: self.slot_count.insert(caller, fresh),
                slot_index: self.slot_index.insert((caller, candidate), fresh),
                ..self
            }
        }
    }

    /// The first reason, if any, for which `caller` cannot withdraw the vote
    /// for `candidate` at the clock reading `now`, before the payout is
    /// handed over. The lock has run out once more ticks than its duration
    /// have passed since the vote was opened.
    pub open spec fn cancel_error(
        self,
        caller: AccountId,
        candidate: AccountId,
        now: BlockHeight,
    ) -> Option<Error> {
        match self.vote(caller, candidate) {
            None => Some(Error::NoSuchVote),
            Some(held) => if now - held.created_at <= held.lock_duration {
                Some(Error::StillLocked)
            } else if self.payout_due(caller, candidate, now) > u64::MAX {
                Some(Error::AmountOverflow)
            } else if self.candidate(candidate).voting_power < self.power_of(
                held.stake,
                held.lock_duration,
            ) {
                Some(Error::PowerUnderflow)
            } else {
                None
            },
        }
    }

    /// What the vote of `caller` for `candidate` pays when it is withdrawn at
    /// `now`: the whole stake and what it has earned since the vote was
    /// opened.
    pub open spec fn payout_due(
        self,
        caller: AccountId,
        candidate: AccountId,
        now: BlockHeight,
    ) -> nat {
        let held = self.votes[(caller, self.slot(caller, candidate))];
        payout_amount(held.stake as nat, (now - held.created_at) as nat)
    }

    /// The registry after the vote of `caller` for `candidate` is withdrawn:
    /// the vote and its index entry are gone, the slot counter is as it was,
    /// and the candidate has lost the voting power that the vote's stake
    /// lends under the vote's own lock.
    pub open spec fn cancelled(self, caller: AccountId, candidate: AccountId) -> Registry {
        let slot = self.slot(caller, candidate);
        let held = self.votes[(caller, slot)];
        let backed = self.reweighed(
            self.candidate(candidate),
            (self.candidate(candidate).voting_power - self.power_of(
                held.stake,
                held.lock_duration,
            )) as u64,
        );
        Registry {
            candidates: self.candidates.insert(candidate, backed),
            votes: self.votes.remove((caller, slot)),
            slot_index: self.slot_index.remove((caller, candidate)),
            ..self
        }
    }

    /// The empty registry is consistent.
    pub proof fn lemma_empty_wf(config: Config)
        requires
            config.valid(),
        ensures
            Registry::empty(config).wf(),
    {
    }

    /// A voter holds a vote for a candidate exactly where the slot index has
    /// a positive entry for the pair, and exactly where one of the voter's
    /// slots holds a vote for that candidate.
    pub proof fn lemma_vote_iff_indexed(self, voter: AccountId, candidate: AccountId)
        requires
            self.wf(),
        ensures
            self.vote(voter, candidate) is Some <==> self.slot(voter, candidate) > 0,
            self.vote(voter, candidate) is Some <==> exists|slot: u64| #[trigger]
                self.votes.contains_key((voter, slot)) && self.votes[(voter, slot)].candidate
                    == candidate,
            self.vote(voter, candidate) matches Some(held) ==> held.candidate == candidate,
    {
    }

    /// Declaring a candidacy for a tier keeps the registry consistent.
    pub proof fn lemma_declared_wf(self, caller: AccountId, intended: Tier)
        requires
            self.wf(),
            intended <= ADMIRAL_RANK,
        ensures
            self.declared(caller, intended).wf(),
    {
    }

    /// An accepted vote keeps the registry consistent.
    pub proof fn lemma_voted_wf(
        self,
        caller: AccountId,
        candidate: AccountId,
        stake: u64,
        lock_duration: BlockHeight,
        now: BlockHeight,
    )
        requires
            self.wf(),
            self.vote_error(caller, candidate, stake, lock_duration) is None,
        ensures
            self.voted(caller, candidate, stake, lock_duration, now).wf(),
    {
    }

    /// An accepted withdrawal keeps the registry consistent.
    pub proof fn lemma_cancelled_wf(self, caller: AccountId, candidate: AccountId, now: BlockHeight)
        requires
            self.wf(),
            self.cancel_error(caller, candidate, now) is None,
        ensures
            self.cancelled(caller, candidate).wf(),
    {
    }
}

} // verus!
