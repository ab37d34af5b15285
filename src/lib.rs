//! Trading-state coordination for an automated equities trading agent.
//!
//! The crate holds the logic that gates and records trades: the per-symbol
//! transaction ledger that allows at most one outstanding buy per symbol,
//! the coordinator that applies every write to trading state in order, the
//! reconnect state machine of a streaming session, market-hours scheduling of
//! the REST poller, and the decisions taken on broker replies and events.
pub mod text;
pub mod error;
pub mod transaction;
pub mod market_hours;
pub mod session;
pub mod model;
pub mod coordinator;
pub mod orders;
pub mod stream;
pub mod poller;
pub mod symbols;
