//! Fluent call chaining for every type, with verified contracts.
//!
//! Two variants of the same two-trait design are provided as sibling modules,
//! mirroring the two build modes of the design:
//!
//! * [`basic`]: `chain` and `chain_mut` invoke a caller-supplied function on
//!   a borrow of the subject and return the same borrow, discarding the
//!   function's result.
//! * [`results`]: `chain` and `chain_mut` return a wrapper exposing both the
//!   function's result and the subject borrow, so a chain can read each
//!   step's result while continuing on the same subject.
//!
//! In both variants every type gains the capability through a blanket
//! implementation; the supplied function runs exactly once per chained call.

pub mod basic;

pub mod results;
