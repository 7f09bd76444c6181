//! The YNAB data model and the computations made on it.

pub mod types;
pub mod endpoint;
pub mod order;
pub mod money;
