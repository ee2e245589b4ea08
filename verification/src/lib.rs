//! Scoped, reversible mutation of a `Vec`.
//!
//! A caller applies a mutating operation (push, pop, assign at an index, or a
//! no-op) to a sequence and receives a *handle* standing for "the sequence with
//! that mutation applied". The handle exposes a read-only view of the mutated
//! sequence, can itself be the target of a further scoped operation (nesting),
//! and gives the target back — with the mutation undone — when it is released
//! with `into_inner`. Handles are move-only: a nested handle owns its target,
//! so releases can only happen in reverse creation order, which is what makes
//! the undo steps reproduce every intermediate state exactly.
//!
//! The module [`model`] states each operation and its reversal as functions on
//! `Seq`, and proves the round-trip and nesting laws over them. The module
//! [`scoped`] holds the executable handles, whose contracts are written over
//! that model.
//!
//! On error handling, the library makes two choices and states them. An
//! out-of-bounds index is a precondition failure at construction: `Assign::new`
//! demands an in-bounds index of its caller, and `Assign::try_new` reports the
//! failure with the target handed back untouched, so no handle ever exists for
//! an operation that did not apply. And a release never needs a run-time check
//! that the sequence still has the shape its operation left: that condition is
//! a precondition of `into_inner`, proved at every call site, in every build.

pub mod model;
pub mod scoped;
