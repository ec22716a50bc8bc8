//! The voting engine: the registry itself and its three operations.
//!
//! The engine never touches funds or the clock. The host reads the clock and
//! passes the reading in. Where an operation moves funds, the host first asks
//! the engine whether the operation stands (`check_vote`, `check_cancel`),
//! then asks the currency service to move the funds, and then hands the
//! answer of the service to the operation itself, which alone changes the
//! registry.

use crate::config::Config;
use crate::registry::Registry;
use crate::rank::resolve_rank;
use crate::records::{
    AccountId, Amount, BlockHeight, Candidate, Error, Tier, Vote, ADMIRAL_RANK, CAPTAIN_RANK,
    CREW_RANK, ENGINEER_RANK, GUEST_RANK, SECTION31_RANK,
};
use crate::stake::payout;
use crate::table::PairTable;
use std::collections::HashMap;
use vstd::prelude::*;

verus! {

broadcast use vstd::std_specs::hash::group_hash_axioms;

/// A governance registry with its parameters.
pub struct Module {
    config: Config,
    candidates: HashMap<AccountId, Candidate>,
    votes: PairTable<Vote>,
    slot_count: HashMap<AccountId, u64>,
    slot_index: PairTable<u64>,
}

impl View for Module {
    type V = Registry;

    closed spec fn view(&self) -> Registry {
        Registry {
            config: self.config,
            candidates: self.candidates@,
            votes: self.votes@,
            slot_count: self.slot_count@,
            slot_index: self.slot_index@,
        }
    }
}

impl Module {
    /// The tables of the registry are consistent.
    pub open spec fn wf(&self) -> bool {
        self@.wf()
    }

    /// An empty registry with the parameters `config`, or `None` where the
    /// parameters are not valid.
    pub fn new(config: Config) -> (created: Option<Module>)
        ensures
            created is Some <==> config.valid(),
            created matches Some(module) ==> module.wf() && module@ == Registry::empty(config),
    {
        if !config.is_valid() {
            return None;
        }
        let module = Module {
            config,
            candidates: HashMap::new(),
            votes: PairTable::new(),
            slot_count: HashMap::new(),
            slot_index: PairTable::new(),
        };
        Some(module)
    }

    /// The parameters of the registry.
    pub fn config(&self) -> (config: Config)
        ensures
            config == self@.config,
    {
        self.config
    }

    /// The candidate record of `account`.
    pub fn candidate_by_account(&self, account: &AccountId) -> (record: Candidate)
        ensures
            record == self@.candidate(*account),
    {
        match self.candidates.get(account) {
            Some(record) => *record,
            None => Candidate::default(),
        }
    }

    /// The vote that `key.0` holds in slot `key.1`, if the slot holds one.
    pub fn votes_of_owner_by_index(&self, key: (AccountId, u64)) -> (held: Option<Vote>)
        ensures
            held == if self@.votes.contains_key(key) {
                Some(self@.votes[key])
            } else {
                None
            },
    {
        match self.votes.get(key.0, key.1) {
            Some(vote) => Some(*vote),
            None => None,
        }
    }

    /// The number of slots handed out to `voter` so far.
    pub fn vote_count(&self, voter: &AccountId) -> (count: u64)
        ensures
            count == self@.count(*voter),
    {
        match self.slot_count.get(voter) {
            Some(count) => *count,
            None => 0,
        }
    }

    /// The slot of the vote that `key.0` holds for `key.1`, or 0.
    pub fn vote_index(&self, key: (AccountId, AccountId)) -> (slot: u64)
        ensures
            slot == self@.slot(key.0, key.1),
    {
        match self.slot_index.get(key.0, key.1) {
            Some(slot) => *slot,
            None => 0,
        }
    }

    /// The effective rank of a candidate that campaigns for `intended_rank`
    /// and holds `total_votes` of voting power.
    pub fn _return_updated_rank(&self, intended_rank: &Tier, total_votes: &u64) -> (rank: Tier)
        ensures
            rank == resolve_rank(self@.config, *intended_rank, *total_votes),
    {
        let mut rank = GUEST_RANK;
        if *total_votes > self.config.admiral_threshold && *intended_rank == ADMIRAL_RANK {
            rank = ADMIRAL_RANK;
        } else if *total_votes > self.config.section31_threshold && *intended_rank
            == SECTION31_RANK {
            rank = SECTION31_RANK;
        } else if *total_votes > self.config.captain_threshold && *intended_rank == CAPTAIN_RANK {
            rank = CAPTAIN_RANK;
        } else if *total_votes > self.config.engineer_threshold && *intended_rank
            == ENGINEER_RANK {
            rank = ENGINEER_RANK;
        } else if *total_votes > self.config.crew_threshold && *intended_rank == CREW_RANK {
            rank = CREW_RANK;
        }
        rank
    }

    /// The voting power that `stake`, locked for `lock_time` ticks, lends a
    /// candidate, or `None` where it does not fit in 64 bits.
    pub fn _calculate_voting_power(&self, stake: Amount, lock_time: BlockHeight) -> (power: Option<
        u64,
    >)
        requires
            self.wf(),
        ensures
            power == if self@.power_of(stake, lock_time) <= u64::MAX {
                Some(self@.power_of(stake, lock_time) as u64)
            } else {
                None
            },
    {
        let stakes = stake / self.config.min_stake;
        let locks = lock_time / self.config.min_lock;
        assert(locks as u128 * locks as u128 <= 0xffff_ffff_ffff_ffff * 0xffff_ffff_ffff_ffff)
            by (nonlinear_arith);
        let weight = locks as u128 * locks as u128;
        if weight > u64::MAX as u128 {
            // More than 64 bits of weight: only a stake of no weight at all
            // still fits.
            proof {
                let s = stakes as int;
                let w = weight as int;
                assert(s >= 1 ==> s * w >= w) by (nonlinear_arith)
                    requires
                        w >= 0,
                ;
                assert(s == 0 ==> s * w == 0) by (nonlinear_arith);
            }
            return if stakes == 0 {
                Some(0)
            } else {
                None
            };
        }
        assert(stakes as u128 * weight <= 0xffff_ffff_ffff_ffff * 0xffff_ffff_ffff_ffff)
            by (nonlinear_arith)
            requires
                weight <= 0xffff_ffff_ffff_ffff,
        ;
        let power = stakes as u128 * weight;
        if power <= u64::MAX as u128 {
            Some(power as u64)
        } else {
            None
        }
    }

    /// Declares, or changes, the candidacy of `caller`: sets the intended rank
    /// and resolves the effective rank anew. A rank above admiral is refused.
    pub fn declare_candidacy(&mut self, caller: AccountId, intended_rank: Tier) -> (outcome:
        Result<(), Error>)
        requires
            old(self).wf(),
        ensures
            final(self).wf(),
            intended_rank > ADMIRAL_RANK ==> outcome == Err::<(), Error>(Error::InvalidRank)
                && final(self)@ == old(self)@,
            intended_rank <= ADMIRAL_RANK ==> outcome == Ok::<(), Error>(()) && final(self)@
                == old(self)@.declared(caller, intended_rank),
    {
        if intended_rank > ADMIRAL_RANK {
            return Err(Error::InvalidRank);
        }
        let mut record = self.candidate_by_account(&caller);
        record.intended_rank = intended_rank;
        record.current_rank = self._return_updated_rank(&intended_rank, &record.voting_power);
        self.candidates.insert(caller, record);
        proof {
            old(self)@.lemma_declared_wf(caller, intended_rank);
        }
        Ok(())
    }

    /// Tells whether a vote of `caller` for `candidate` stands, before any
    /// funds move. On `Ok` the host is to withdraw `stake` from `caller`, and
    /// to hand the answer to `cast_vote`.
    pub fn check_vote(
        &self,
        caller: AccountId,
        candidate: AccountId,
        stake: Amount,
        lock_duration: BlockHeight,
    ) -> (outcome: Result<(), Error>)
        requires
            self.wf(),
        ensures
            outcome == match self@.vote_error(caller, candidate, stake, lock_duration) {
                Some(error) => Err::<(), Error>(error),
                None => Ok::<(), Error>(()),
            },
    {
        let backed = self.candidate_by_account(&candidate);
        if backed.intended_rank <= GUEST_RANK {
            return Err(Error::NoSuchCandidate);
        }
        if stake < self.config.min_stake {
            return Err(Error::StakeTooLow);
        }
        if lock_duration < self.config.min_lock {
            return Err(Error::LockTooShort);
        }
        if self.vote_count(&caller) == u64::MAX {
            return Err(Error::CounterOverflow);
        }
        let lent = match self._calculate_voting_power(stake, lock_duration) {
            Some(lent) => lent,
            None => {
                return Err(Error::AmountOverflow);
            },
        };
        if backed.voting_power.checked_add(lent).is_none() {
            return Err(Error::AmountOverflow);
        }
        let slot = self.vote_index((caller, candidate));
        if slot > 0 {
            match self.votes.get(caller, slot) {
                Some(held) => {
                    if held.stake.checked_add(stake).is_none() {
                        return Err(Error::AmountOverflow);
                    }
                },
                None => {},
            }
        }
        Ok(())
    }

    /// Casts a vote of `caller` for `candidate`, or tops up the vote that the
    /// caller already holds for that candidate: `stake` is locked for
    /// `lock_duration` ticks from `now`. `withdrawn` says whether the
    /// currency service handed over the stake. A vote that does not stand is
    /// refused for the reason that `check_vote` gives, whatever `withdrawn`
    /// says.
    pub fn cast_vote(
        &mut self,
        caller: AccountId,
        candidate: AccountId,
        stake: Amount,
        lock_duration: BlockHeight,
        now: BlockHeight,
        withdrawn: bool,
    ) -> (outcome: Result<(), Error>)
        requires
            old(self).wf(),
        ensures
            final(self).wf(),
            match old(self)@.vote_error(caller, candidate, stake, lock_duration) {
                Some(error) => outcome == Err::<(), Error>(error) && final(self)@ == old(self)@,
                None => if withdrawn {
                    outcome == Ok::<(), Error>(()) && final(self)@ == old(self)@.voted(
                        caller,
                        candidate,
                        stake,
                        lock_duration,
                        now,
                    )
                } else {
                    outcome == Err::<(), Error>(Error::InsufficientFunds) && final(self)@ == old(
                        self,
                    )@
                },
            },
    {
        match self.check_vote(caller, candidate, stake, lock_duration) {
            Err(error) => {
                return Err(error);
            },
            Ok(_) => {},
        }
        if !withdrawn {
            return Err(Error::InsufficientFunds);
        }
        let mut backed = self.candidate_by_account(&candidate);
        let lent = self._calculate_voting_power(stake, lock_duration).unwrap();
        backed.voting_power = backed.voting_power + lent;
        backed.current_rank = self._return_updated_rank(
            &backed.intended_rank,
            &backed.voting_power,
        );
        let slot = self.vote_index((caller, candidate));
        if slot > 0 {
            let held = self.votes_of_owner_by_index((caller, slot)).unwrap();
            self.votes.insert(caller, slot, Vote { stake: held.stake + stake, ..held });
        } else {
            let fresh = self.vote_count(&caller) + 1;
            self.votes.insert(
                caller,
                fresh,
                Vote { candidate, stake, created_at: now, lock_duration },
            );
            self.slot_index.insert(caller, candidate, fresh);
            self.slot_count.insert(caller, fresh);
        }
        self.candidates.insert(candidate, backed);
        proof {
            old(self)@.lemma_voted_wf(caller, candidate, stake, lock_duration, now);
        }
        Ok(())
    }

    /// Tells whether `caller` can withdraw the vote for `candidate` at the
    /// clock reading `now`, before any funds move. On `Ok` the host is to
    /// deposit the amount returned to `caller`, and to hand the answer to
    /// `cancel_vote`.
    pub fn check_cancel(&self, caller: AccountId, candidate: AccountId, now: BlockHeight) -> (outcome:
        Result<Amount, Error>)
        requires
            self.wf(),
        ensures
            outcome == match self@.cancel_error(caller, candidate, now) {
                Some(error) => Err::<Amount, Error>(error),
                None => Ok::<Amount, Error>(self@.payout_due(caller, candidate, now) as u64),
            },
    {
        let slot = self.vote_index((caller, candidate));
        if slot == 0 {
            return Err(Error::NoSuchVote);
        }
        let held = self.votes_of_owner_by_index((caller, slot)).unwrap();
        if now < held.created_at || now - held.created_at <= held.lock_duration {
            return Err(Error::StillLocked);
        }
        let due = match payout(held.stake, now - held.created_at) {
            Some(due) => due,
            None => {
                return Err(Error::AmountOverflow);
            },
        };
        let backed = self.candidate_by_account(&candidate);
        match self._calculate_voting_power(held.stake, held.lock_duration) {
            Some(lent) => {
                if backed.voting_power < lent {
                    return Err(Error::PowerUnderflow);
                }
            },
            None => {
                return Err(Error::PowerUnderflow);
            },
        }
        Ok(due)
    }

    /// Withdraws the vote of `caller` for `candidate` at the clock reading
    /// `now` and returns what it pays. `deposited` says whether the currency
    /// service accepted the payout. A withdrawal that does not stand is
    /// refused for the reason that `check_cancel` gives, whatever `deposited`
    /// says.
    pub fn cancel_vote(
        &mut self,
        caller: AccountId,
        candidate: AccountId,
        now: BlockHeight,
        deposited: bool,
    ) -> (outcome: Result<Amount, Error>)
        requires
            old(self).wf(),
        ensures
            final(self).wf(),
            match old(self)@.cancel_error(caller, candidate, now) {
                Some(error) => outcome == Err::<Amount, Error>(error) && final(self)@ == old(
                    self,
                )@,
                None => if deposited {
                    outcome == Ok::<Amount, Error>(
                        old(self)@.payout_due(caller, candidate, now) as u64,
                    ) && final(self)@ == old(self)@.cancelled(caller, candidate)
                } else {
                    outcome == Err::<Amount, Error>(Error::DepositRefused) && final(self)@ == old(
                        self,
                    )@
                },
            },
    {
        let due = match self.check_cancel(caller, candidate, now) {
            Err(error) => {
                return Err(error);
            },
            Ok(due) => due,
        };
        if !deposited {
            return Err(Error::DepositRefused);
        }
        let slot = self.vote_index((caller, candidate));
        let held = self.votes_of_owner_by_index((caller, slot)).unwrap();
        let lent = self._calculate_voting_power(held.stake, held.lock_duration).unwrap();
        let mut backed = self.candidate_by_account(&candidate);
        backed.voting_power = backed.voting_power - lent;
        backed.current_rank = self._return_updated_rank(
            &backed.intended_rank,
            &backed.voting_power,
        );
        self.votes.remove(caller, slot);
        self.slot_index.remove(caller, candidate);
        self.candidates.insert(candidate, backed);
        proof {
            old(self)@.lemma_cancelled_wf(caller, candidate, now);
        }
        Ok(due)
    }
}

} // verus!
