//! A round-based binary-options market: stakes are placed on whether a
//! reference price closes above or below its opening value, an oracle
//! attests the price pair of each round, and winners share the pooled
//! stakes in proportion to what they put in.

pub mod encoding;
pub mod errors;
pub mod fast_binary_option;
pub mod guarantees;
pub mod instructions;
pub mod states;
