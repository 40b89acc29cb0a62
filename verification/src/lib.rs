//! Creditra credit: per-borrower credit lines with risk-priced interest,
//! verified with Verus.

pub mod accrual;
pub mod attestation;
pub mod borrow;
pub mod contract;
pub mod cross_chain;
pub mod fees;
pub mod handshake;
pub mod instrument;
pub mod limits;
pub mod math_utils;
pub mod penalties;
pub mod query;
pub mod quorum;
pub mod risk;
pub mod scoring;
pub mod types;
pub use contract::Credit;
