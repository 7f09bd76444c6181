//! Budget Explorer library: the budget data model, the helpers that query it,
//! the tool registry offered to a language model, and the decision core of the
//! tool-calling agent.

pub mod text;

pub mod json;
pub mod ynab;
pub mod profile;
pub mod ai;
pub mod tools;
pub mod config;
pub mod cli;
