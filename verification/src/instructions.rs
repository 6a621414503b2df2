//! The operations of the market, one accounts bundle per operation.

pub mod admin;
pub mod bet;
