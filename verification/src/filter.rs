//! Filters over feed entries and the regular-expression engine behind them.

pub mod filter_entries;
pub mod pattern;
