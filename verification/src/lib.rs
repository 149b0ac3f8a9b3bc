//! A minimal state machine: a shared counter is read and possibly bumped by
//! whichever handler variant is currently active, while transition messages
//! swap the active variant according to a fixed, total table.
//!
//! The intended embedding runs one loop applying transitions and one loop
//! invoking the active handler, both serialized through a single lock; the
//! library itself is the sequential core those loops drive.

pub mod handlers;
pub mod laws;
pub mod machine;
