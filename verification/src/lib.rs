//! A dice game played against a shared pot, with its rules, its payout
//! arithmetic and its bookkeeping stated and proved with Verus.

pub mod bytes;
pub mod chain;
pub mod contract;
pub mod digest;
pub mod error;
pub mod laws;
pub mod msg;
pub mod rand;
pub mod rules;
pub mod state;
