//! Client-side stream multiplexer core: fan in several redundant block
//! subscriptions and produce one de-duplicated, monotonically advancing
//! stream of blocks.

pub mod config;
pub mod connection;
pub mod extract;
pub mod fanout;
pub mod filter;
pub mod merge;
pub mod multiplex;
pub mod update;
