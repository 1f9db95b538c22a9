//! A single-purpose, time-locked escrow engine.
//!
//! A depositor transfers fungible tokens to the engine together with a lock
//! duration; the engine records the deposit; once the clock reaches the
//! recorded expiry, the original depositor — and nobody else — can redeem the
//! full amount. At most one live escrow exists per depositor address.
//!
//! The engine is a pure state machine: the clock is an explicit parameter of
//! every state-changing operation, and the instruction to move tokens back to
//! a depositor is returned as a value for the hosting environment to carry
//! out. Custody of real balances, message routing and (de)serialization are
//! the host's business and stay outside this crate's logic.

pub mod error;
pub mod state;
pub mod engine;
