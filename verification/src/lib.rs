//! Error taxonomy of a block-execution pipeline.
//!
//! The crate provides [`executor::BlockExecutionError`], a closed set of
//! failure variants covering transaction validation, block-level checks,
//! provider lookups, chain-tree consistency, transactional commit/revert,
//! and consensus-transition invariants, together with:
//!
//! * a total, deterministic textual rendering with a proved-exact template
//!   per variant,
//! * the fatality classifier `is_fatal`, true exactly on the two
//!   transactional variants (commit and revert failures),
//! * structural equality with proved equivalence laws.

pub mod executor;
pub mod primitives;
pub mod text;

pub use executor::BlockExecutionError;
