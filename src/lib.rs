//! Safety layer between a garbage-collected host runtime and native objects:
//! an integer-handle registry with misuse detection, a write-once process
//! slot, the decision logic that drains and classifies host-side pending
//! failures, and the safe-default policy of boundary entry points.

pub mod boundary;
pub mod errors;
pub mod global;
pub mod handle;
pub mod services;
