//! Verified core of a constant-product pair: flash-loan fees and settlement,
//! the cumulative-price oracle, the pair's events and its error codes.

pub mod arith;
pub mod errors;
pub mod events;
pub mod flash_loan;
pub mod oracle;
