//! A personal incentive ledger: points are earned by ticking tasks and spent
//! by ticking rewards, and a reward can keep files behind a gate until it is
//! paid for.
//!
//! Amounts are whole numbers of *units*; what a unit is worth is up to the
//! caller. Balances and transfers are counted in *sixtieths* of a unit, so
//! that an hourly rate charged by the minute stays an exact integer.

pub mod app_state;
pub mod cli_utils;
pub mod crypto_utils;
pub mod io_utils;
pub mod reward_collection;
pub mod task;
pub mod transfer;
