//! The voting power of a candidate against the votes that back it.
//!
//! A vote accounts for what its whole stake lends under its own lock; that
//! is what a withdrawal takes from the candidate. A vote that is topped up
//! gives the candidate what the added stake lends under the lock that comes
//! with it. The two agree unless rounding, or a different lock, comes
//! between a top-up and the vote it adds to. A registry in which they have
//! always agreed is balanced: every candidate holds exactly what the votes
//! for it account for, and no withdrawal can ask for more.

use crate::config::Config;
use crate::records::{AccountId, BlockHeight, Error, Tier, ADMIRAL_RANK};
use crate::registry::Registry;
use crate::tally::{
    lemma_total_of_equal_weights, lemma_total_of_none, lemma_total_of_zeros, lemma_total_with,
    lemma_total_without, total,
};
use vstd::prelude::*;

verus! {

impl Registry {
    /// What the vote under `key` accounts for with `candidate`: the voting
    /// power that its stake lends under its lock if it backs the candidate,
    /// and nothing otherwise.
    pub open spec fn weight(self, candidate: AccountId, key: (AccountId, u64)) -> nat {
        if self.votes[key].candidate == candidate {
            self.power_of(self.votes[key].stake, self.votes[key].lock_duration)
        } else {
            0
        }
    }

    /// The weight of every slot with `candidate`.
    pub open spec fn weights(self, candidate: AccountId) -> spec_fn((AccountId, u64)) -> nat {
        |key: (AccountId, u64)| self.weight(candidate, key)
    }

    /// What the active votes for `candidate` account for together.
    pub open spec fn backing(self, candidate: AccountId) -> nat {
        total(self.votes.dom(), self.weights(candidate))
    }

    /// Every candidate holds exactly the voting power that the votes for it
    /// account for.
    pub open spec fn balanced(self) -> bool {
        forall|candidate: AccountId|
            self.candidate(candidate).voting_power == #[trigger] self.backing(candidate)
    }

    /// A vote of `stake` under `lock_duration` gives the candidate what the
    /// vote will account for: it opens a vote, or it tops one up without
    /// loss.
    pub open spec fn adds_up(
        self,
        caller: AccountId,
        candidate: AccountId,
        stake: u64,
        lock_duration: BlockHeight,
    ) -> bool {
        self.vote(caller, candidate) matches Some(held) ==> self.power_of(
            (held.stake + stake) as u64,
            held.lock_duration,
        ) == self.power_of(held.stake, held.lock_duration) + self.power_of(stake, lock_duration)
    }

    /// The backing of a candidate is at least what any one vote for it
    /// accounts for.
    pub proof fn lemma_backing_covers_each_vote(self, voter: AccountId, candidate: AccountId)
        requires
            self.wf(),
            self.vote(voter, candidate) is Some,
        ensures
            ({
                let held = self.vote(voter, candidate)->Some_0;
                self.backing(candidate) >= self.power_of(held.stake, held.lock_duration)
            }),
    {
        let key = (voter, self.slot(voter, candidate));
        assert(self.index_entry_holds(voter, candidate));
        lemma_total_without(self.votes.dom(), self.weights(candidate), key);
    }

    /// In a balanced registry no withdrawal is refused for want of voting
    /// power.
    pub proof fn lemma_balanced_never_underflows(
        self,
        caller: AccountId,
        candidate: AccountId,
        now: BlockHeight,
    )
        requires
            self.wf(),
            self.balanced(),
        ensures
            self.cancel_error(caller, candidate, now) != Some(Error::PowerUnderflow),
    {
        if self.vote(caller, candidate) is Some {
            self.lemma_backing_covers_each_vote(caller, candidate);
        }
    }

    /// The empty registry is balanced.
    pub proof fn lemma_empty_balanced(config: Config)
        ensures
            Registry::empty(config).balanced(),
    {
        let empty = Registry::empty(config);
        assert forall|candidate: AccountId|
            empty.candidate(candidate).voting_power == #[trigger] empty.backing(candidate) by {
            assert(empty.votes.dom() =~= Set::<(AccountId, u64)>::empty());
            lemma_total_of_none(empty.weights(candidate));
        }
    }

    /// Declaring a candidacy keeps the registry balanced.
    pub proof fn lemma_declared_balanced(self, caller: AccountId, intended: Tier)
        requires
            self.wf(),
            self.balanced(),
            intended <= ADMIRAL_RANK,
        ensures
            self.declared(caller, intended).balanced(),
    {
        let after = self.declared(caller, intended);
        assert forall|candidate: AccountId|
            after.candidate(candidate).voting_power == #[trigger] after.backing(candidate) by {
            lemma_total_of_equal_weights(
                self.votes.dom(),
                self.weights(candidate),
                after.weights(candidate),
            );
            assert(self.candidate(candidate).voting_power == self.backing(candidate));
        }
    }

    /// An accepted vote that adds up keeps the registry balanced.
    pub proof fn lemma_voted_balanced(
        self,
        caller: AccountId,
        candidate: AccountId,
        stake: u64,
        lock_duration: BlockHeight,
        now: BlockHeight,
    )
        requires
            self.wf(),
            self.balanced(),
            self.vote_error(caller, candidate, stake, lock_duration) is None,
            self.adds_up(caller, candidate, stake, lock_duration),
        ensures
            self.voted(caller, candidate, stake, lock_duration, now).balanced(),
    {
        let after = self.voted(caller, candidate, stake, lock_duration, now);
        let slot = self.slot(caller, candidate);
        let keys = self.votes.dom();
        assert(self.candidates.contains_key(candidate));
        if slot > 0 {
            let key = (caller, slot);
            assert(self.index_entry_holds(caller, candidate));
            assert(after.votes.dom() =~= keys);
            assert forall|backed: AccountId|
                after.candidate(backed).voting_power == #[trigger] after.backing(backed) by {
                assert(self.candidate(backed).voting_power == self.backing(backed));
                lemma_total_without(keys, self.weights(backed), key);
                lemma_total_without(keys, after.weights(backed), key);
                lemma_total_of_equal_weights(
                    keys.remove(key),
                    self.weights(backed),
                    after.weights(backed),
                );
            }
        } else {
            let key = (caller, (self.count(caller) + 1) as u64);
            if self.votes.contains_key(key) {
                assert(self.vote_entry_holds(key.0, key.1));
                assert(self.index_entry_holds(key.0, self.votes[key].candidate));
            }
            assert(after.votes.dom() =~= keys.insert(key));
            assert forall|backed: AccountId|
                after.candidate(backed).voting_power == #[trigger] after.backing(backed) by {
                assert(self.candidate(backed).voting_power == self.backing(backed));
                lemma_total_with(keys, after.weights(backed), key);
                lemma_total_of_equal_weights(keys, self.weights(backed), after.weights(backed));
            }
        }
    }

    /// An accepted withdrawal keeps the registry balanced.
    pub proof fn lemma_cancelled_balanced(
        self,
        caller: AccountId,
        candidate: AccountId,
        now: BlockHeight,
    )
        requires
            self.wf(),
            self.balanced(),
            self.cancel_error(caller, candidate, now) is None,
        ensures
            self.cancelled(caller, candidate).balanced(),
    {
        let after = self.cancelled(caller, candidate);
        let key = (caller, self.slot(caller, candidate));
        let keys = self.votes.dom();
        assert(self.index_entry_holds(caller, candidate));
        assert(self.vote_entry_holds(key.0, key.1));
        assert(after.votes.dom() =~= keys.remove(key));
        assert forall|backed: AccountId|
            after.candidate(backed).voting_power == #[trigger] after.backing(backed) by {
            assert(self.candidate(backed).voting_power == self.backing(backed));
            lemma_total_without(keys, self.weights(backed), key);
            lemma_total_of_equal_weights(
                keys.remove(key),
                self.weights(backed),
                after.weights(backed),
            );
        }
    }

    /// A candidate without a vote has no backing.
    pub proof fn lemma_no_votes_no_backing(self, candidate: AccountId)
        requires
            self.wf(),
            forall|voter: AccountId| self.vote(voter, candidate) is None,
        ensures
            self.backing(candidate) == 0,
    {
        assert forall|key: (AccountId, u64)| self.votes.dom().contains(key) implies #[trigger]
            self.weights(candidate)(key) == 0 by {
            assert(self.vote_entry_holds(key.0, key.1));
            if self.votes[key].candidate == candidate {
                assert(self.vote(key.0, candidate) is None);
            }
        }
        lemma_total_of_zeros(self.votes.dom(), self.weights(candidate));
    }
}

} // verus!
