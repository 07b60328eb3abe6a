//! Prices of the two tokens of a single liquidity pool, and the decisions of
//! the loop that reports them once at the start and again after every trade.
//!
//! Prices are exact fractions: the final division, in floating point, is left
//! to the caller. `token` holds addresses and their order, `normalize` the
//! common decimal basis, `pricing` the two pricing models, `monitor` the loop's
//! state machine, `config` the checks on what to monitor, and `report` the
//! layout of what is shown.

pub mod config;
pub mod monitor;
pub mod normalize;
pub mod pricing;
pub mod report;
pub mod token;
