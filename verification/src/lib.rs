//! Interactive multi-select list logic for two small version-control
//! front ends: picking commits to apply one by one, and pruning local
//! branches in one batch.
//!
//! The crate holds the pure state of a selection session — an ordered
//! list of candidates with selection flags and a wrapping cursor — the
//! controller that maps input events to list mutations, and the planning
//! of the external operations that a finished selection gives rise to.
//! Terminal handling and the external tool invocations live outside.

pub mod list;
pub mod text;
pub mod pick;
pub mod prune;
