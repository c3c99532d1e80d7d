//! A non-custodial collateral ledger with delegated, capability-scoped
//! trading authorization.
//!
//! Owners deposit a single stable asset into a personally-owned vault,
//! authorize delegates with fine-grained permissions and risk limits, and a
//! separate business program locks/unlocks margin and applies
//! profit-and-loss against the vault on the owner's behalf. Every record is
//! bound to its owner through deterministic address derivation, every
//! numeric operation is overflow-checked, and every transition either fully
//! commits or has no effect.

pub mod address;
pub mod codec;
pub mod error;
pub mod instruction;
pub mod laws;
pub mod math;
pub mod processor;
pub mod state;
pub mod utils;
