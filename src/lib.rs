//! Order evaluation and execution for a small simulated stock-trading
//! backend: prices are held as integer cents, and every decision the
//! service makes between fetching a quote and writing a transaction row is
//! a verified function of plain values.

pub mod order;
pub mod money;
pub mod evaluator;
pub mod record;
pub mod service;
pub mod laws;
