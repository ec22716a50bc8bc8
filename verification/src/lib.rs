//! A layered, stake-weighted governance registry.
//!
//! Accounts declare a candidacy for a ranked tier, other accounts back them by
//! locking funds as votes, and every candidate's effective rank follows from
//! the voting power that has accumulated behind it. A vote can be withdrawn
//! once its lock has run out, and then pays a reward that grows with the time
//! the stake was locked.
//!
//! `engine` holds the registry and its operations, `registry` says what they
//! mean, and `laws` and `backing` state what follows.

pub mod backing;
pub mod config;
pub mod engine;
pub mod laws;
pub mod rank;
pub mod records;
pub mod registry;
pub mod stake;
mod table;
pub mod tally;
