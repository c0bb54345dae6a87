//! A minimal deterministic state-transition machine: pallets that each own
//! one slice of state, a runtime that composes them and routes calls, and a
//! block executor with per-extrinsic failure isolation.
//!
//! Arithmetic policies: balance transfers use checked arithmetic and fail on
//! underflow or overflow; nonces wrap to zero past their largest value; the
//! block counter never wraps, so once at its largest value every block is
//! refused.

pub mod balances;
pub mod laws;
pub mod proof_of_existence;
pub mod runtime;
pub mod storage;
pub mod support;
pub mod system;
pub mod types;
