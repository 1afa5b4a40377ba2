//! A minimal ledger state machine: blocks of extrinsics are applied, in order,
//! to per-account nonces and balances.

pub mod accounts;
pub mod arith;
pub mod balances;
pub mod runtime;
pub mod support;
pub mod system;
pub mod types;

pub use runtime::{Runtime, RuntimeCall};
