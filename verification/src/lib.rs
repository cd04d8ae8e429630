//! Order sizing, address resolution, order-book ordering and approval
//! sequencing for a prediction-market trading client.
//!
//! Everything here computes on plain values. Network calls, chain
//! transactions, key handling and printing belong to the caller, which feeds
//! their results back in as events.

pub mod address;
pub mod amount;
pub mod approval;
pub mod cli;
pub mod decimal;
pub mod order;
pub mod orderbook;
pub mod outcomes;
pub mod text;
pub mod orchestrator;
pub mod units;
pub mod upgrade;
