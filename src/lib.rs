//! Accounting and rebalancing core of auto-compounding yield-farming vaults:
//! fixed-point helpers, the reward-per-share ledger, the optimal one-sided swap
//! calculator, the decisions of a harvest-and-reinvest cycle, and the rules of
//! the governance polls that steer it.

pub mod bond;
pub mod compound;
pub mod error;
pub mod keys;
pub mod laws;
pub mod ledger;
pub mod math;
pub mod msg;
pub mod poll;
pub mod proxy;
pub mod swap;
pub mod wide;
pub mod zap;
