//! A minimal token-staking pool: a record that tracks the cumulative amount
//! staked into it, an initializer that creates the record at zero, and a stake
//! operation that adds each amount the token transfer moved into the pool.
//!
//! Moving the tokens and allocating the record are the host's work; the
//! functions here take the outcome of that work and decide what happens to
//! the pool record.

mod history;
mod pool;

pub use history::{after_stakes, lemma_stakes_add_sum, lemma_total_is_sum_of_stakes, lemma_zero_stake_keeps_pool, sum_of};
pub use pool::{initialize_pool, stake_token, BaseAccount, InitError, Pool, StakeError};
