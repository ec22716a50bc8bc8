//! The three operations of the registry, driven the way a host drives them:
//! ask the engine, move the funds, tell the engine.

use federation::config::Config;
use federation::engine::Module;
use federation::records::{AccountId, Amount, BlockHeight, Error, Tier};
use std::collections::HashMap;

/// A currency service and a clock, as small as they come.
struct Host {
    engine: Module,
    free: HashMap<AccountId, Amount>,
    block_number: BlockHeight,
}

impl Host {
    fn new() -> Host {
        Host {
            engine: Module::new(Config::default()).unwrap(),
            free: HashMap::new(),
            block_number: 0,
        }
    }

    fn make_free_balance_be(&mut self, who: AccountId, amount: Amount) {
        self.free.insert(who, amount);
    }

    fn free_balance(&self, who: AccountId) -> Amount {
        self.free.get(&who).copied().unwrap_or(0)
    }

    /// Takes `amount` from `who`, who must keep something.
    fn withdraw(&mut self, who: AccountId, amount: Amount) -> bool {
        let free = self.free_balance(who);
        if free > amount {
            self.free.insert(who, free - amount);
            true
        } else {
            false
        }
    }

    /// Pays `amount` to `who`, who must hold an account already.
    fn deposit(&mut self, who: AccountId, amount: Amount) -> bool {
        match self.free.get(&who).copied() {
            Some(free) => {
                self.free.insert(who, free + amount);
                true
            }
            None => false,
        }
    }

    fn change_rank(&mut self, caller: AccountId, rank: Tier) -> Result<(), Error> {
        self.engine.declare_candidacy(caller, rank)
    }

    fn vote(
        &mut self,
        caller: AccountId,
        candidate: AccountId,
        stake: Amount,
        lock: BlockHeight,
    ) -> Result<(), Error> {
        self.engine.check_vote(caller, candidate, stake, lock)?;
        let withdrawn = self.withdraw(caller, stake);
        self.engine.cast_vote(caller, candidate, stake, lock, self.block_number, withdrawn)
    }

    fn cancel_vote(&mut self, caller: AccountId, candidate: AccountId) -> Result<Amount, Error> {
        let due = self.engine.check_cancel(caller, candidate, self.block_number)?;
        let deposited = self.deposit(caller, due);
        self.engine.cancel_vote(caller, candidate, self.block_number, deposited)
    }
}

#[test]
fn change_rank_works() {
    let mut host = Host::new();
    assert_eq!(host.change_rank(0, 7), Err(Error::InvalidRank));
    assert_eq!(host.change_rank(0, 2), Ok(()));
    let candidate = host.engine.candidate_by_account(&0);
    assert_eq!(candidate.intended_rank, 2);
}

#[test]
fn vote_works() {
    let mut host = Host::new();
    let candidate_to_vote: u64 = 2;
    let voter: u64 = 0;
    let intended_rank: u16 = 5;
    let stake: u64 = 7001;
    let lock: u64 = 1000000;

    assert_eq!(host.vote(1, 1, stake, lock), Err(Error::NoSuchCandidate));
    let _ = host.change_rank(candidate_to_vote, intended_rank);
    assert_eq!(host.vote(1, candidate_to_vote, stake, lock), Err(Error::InsufficientFunds));
    host.make_free_balance_be(voter, 200000);
    assert_eq!(host.vote(voter, candidate_to_vote, 5, lock), Err(Error::StakeTooLow));
    assert_eq!(host.vote(voter, candidate_to_vote, stake, 5), Err(Error::LockTooShort));
    assert_eq!(host.vote(voter, candidate_to_vote, stake, lock), Ok(()));
    let candidate = host.engine.candidate_by_account(&candidate_to_vote);
    assert_eq!(candidate.voting_power, 5670);
    assert_eq!(candidate.current_rank, intended_rank);
    let vote = host.engine.votes_of_owner_by_index((voter, 1)).unwrap();
    assert_eq!(vote.stake, stake);
}

#[test]
fn cancel_vote_works() {
    let mut host = Host::new();
    let candidate_to_vote: u64 = 2;
    let voter: u64 = 0;

    assert_eq!(host.cancel_vote(voter, candidate_to_vote), Err(Error::NoSuchVote));
    host.make_free_balance_be(voter, 2000);
    let _ = host.change_rank(candidate_to_vote, 2);
    assert_eq!(host.vote(voter, candidate_to_vote, 1000, 200000), Ok(()));
    // 5126400 ticks make a year, and a year earns a tenth
    assert_eq!(host.cancel_vote(voter, candidate_to_vote), Err(Error::StillLocked));
    host.block_number = 5126401;
    assert_eq!(host.cancel_vote(voter, candidate_to_vote), Ok(1100));
    let free_balance = host.free_balance(voter);
    let candidate = host.engine.candidate_by_account(&candidate_to_vote);
    assert_eq!(candidate.voting_power, 0);
    assert_eq!(free_balance, 2100);
}

#[test]
fn refused_operations_move_no_funds_and_change_nothing() {
    let mut host = Host::new();
    host.make_free_balance_be(0, 5000);
    assert_eq!(host.vote(0, 2, 1000, 200000), Err(Error::NoSuchCandidate));
    assert_eq!(host.change_rank(2, 6), Err(Error::InvalidRank));
    assert_eq!(host.change_rank(2, 1), Ok(()));
    assert_eq!(host.vote(0, 2, 99, 200000), Err(Error::StakeTooLow));
    assert_eq!(host.vote(0, 2, 1000, 100799), Err(Error::LockTooShort));
    assert_eq!(host.cancel_vote(0, 2), Err(Error::NoSuchVote));
    assert_eq!(host.free_balance(0), 5000);
    assert_eq!(host.engine.vote_count(&0), 0);
    assert_eq!(host.engine.vote_index((0, 2)), 0);
    assert_eq!(host.engine.votes_of_owner_by_index((0, 1)), None);
    let candidate = host.engine.candidate_by_account(&2);
    assert_eq!(candidate.voting_power, 0);
    assert_eq!(candidate.intended_rank, 1);
    assert_eq!(candidate.current_rank, 0);
}

#[test]
fn a_year_and_a_tick_earns_a_tenth() {
    let mut host = Host::new();
    host.make_free_balance_be(7, 1001);
    assert_eq!(host.change_rank(3, 1), Ok(()));
    assert_eq!(host.vote(7, 3, 1000, 200000), Ok(()));
    assert_eq!(host.free_balance(7), 1);
    let candidate = host.engine.candidate_by_account(&3);
    assert_eq!(candidate.voting_power, 10);
    host.block_number = 5126401;
    assert_eq!(host.cancel_vote(7, 3), Ok(1100));
    assert_eq!(host.free_balance(7), 1101);
}

#[test]
fn stake_of_7001_for_a_million_ticks_makes_an_admiral() {
    let mut host = Host::new();
    host.make_free_balance_be(0, 10000);
    assert_eq!(host.change_rank(2, 5), Ok(()));
    assert_eq!(host.vote(0, 2, 7001, 1000000), Ok(()));
    let candidate = host.engine.candidate_by_account(&2);
    assert_eq!(candidate.voting_power, 70 * 9 * 9);
    assert_eq!(candidate.voting_power, 5670);
    assert_eq!(candidate.current_rank, 5);
    assert_eq!(candidate.intended_rank, 5);
}
