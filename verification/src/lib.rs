//! Block statistics derived from a Bitcoin node's answers: the time it took to
//! mine a block and the number of transactions it holds.

pub mod block;
pub mod config;
pub mod connector;
pub mod error;
pub mod metrics;
pub mod node;
pub mod span;
