//! The parameters of the registry, fixed when it is set up.

use crate::records::{Tier, ADMIRAL_RANK, CAPTAIN_RANK, CREW_RANK, ENGINEER_RANK, SECTION31_RANK};
use vstd::prelude::*;

verus! {

/// The minimum stake and lock of a vote, and the voting power that each tier
/// above guest asks for.
#[derive(Clone, Copy, Debug, PartialEq, Eq, Structural)]
pub struct Config {
    /// The smallest stake that a vote may lock; also the unit in which stakes are weighed.
    pub min_stake: u64,
    /// The shortest lock of a vote, in ticks; also the unit in which locks are weighed.
    pub min_lock: u64,
    pub crew_threshold: u64,
    pub engineer_threshold: u64,
    pub captain_threshold: u64,
    pub section31_threshold: u64,
    pub admiral_threshold: u64,
}

impl Config {
    /// Both units are positive, and the minimum stake and the five thresholds
    /// rise strictly from one to the next.
    pub open spec fn valid(self) -> bool {
        &&& 0 < self.min_lock
        &&& 0 < self.min_stake
        &&& self.min_stake < self.crew_threshold
        &&& self.crew_threshold < self.engineer_threshold
        &&& self.engineer_threshold < self.captain_threshold
        &&& self.captain_threshold < self.section31_threshold
        &&& self.section31_threshold < self.admiral_threshold
    }

    /// The voting power that `tier` asks for; guest, and a number that names
    /// no tier, ask for none.
    pub open spec fn threshold(self, tier: Tier) -> Option<u64> {
        if tier == CREW_RANK {
            Some(self.crew_threshold)
        } else if tier == ENGINEER_RANK {
            Some(self.engineer_threshold)
        } else if tier == CAPTAIN_RANK {
            Some(self.captain_threshold)
        } else if tier == SECTION31_RANK {
            Some(self.section31_threshold)
        } else if tier == ADMIRAL_RANK {
            Some(self.admiral_threshold)
        } else {
            None
        }
    }

    /// The parameters a registry starts out with where nothing else is chosen.
    pub open spec fn standard() -> Config {
        Config {
            min_stake: 100,
            min_lock: 100800,
            crew_threshold: 1000,
            engineer_threshold: 2000,
            captain_threshold: 3000,
            section31_threshold: 4000,
            admiral_threshold: 5000,
        }
    }

    /// Tells whether the parameters are valid.
    pub fn is_valid(&self) -> (ok: bool)
        ensures
            ok == self.valid(),
    {
        0 < self.min_lock && 0 < self.min_stake && self.min_stake < self.crew_threshold
            && self.crew_threshold < self.engineer_threshold && self.engineer_threshold
            < self.captain_threshold && self.captain_threshold < self.section31_threshold
            && self.section31_threshold < self.admiral_threshold
    }
}

impl Default for Config {
    fn default() -> (config: Config)
        ensures
            config == Config::standard(),
            config.valid(),
    {
        Config {
            min_stake: 100,
            min_lock: 100800,
            crew_threshold: 1000,
            engineer_threshold: 2000,
            captain_threshold: 3000,
            section31_threshold: 4000,
            admiral_threshold: 5000,
        }
    }
}

} // verus!
