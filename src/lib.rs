//! Settlement core of a margin-trading ledger: an event queue of fills and
//! cancellations applied to per-account perp positions, order pruning and
//! position purging for force-closed markets.

pub mod fixed_point;
pub mod error;
pub mod event;
pub mod account;
pub mod queue;
pub mod consume;
pub mod book;
pub mod purge;
pub mod feed;
pub mod oracle;
pub mod laws;
pub mod accounts_ix;
