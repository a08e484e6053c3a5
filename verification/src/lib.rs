//! Input, rotation and termination logic of a single-quad frame loop.
//!
//! The library holds the decisions of the loop as a state machine over plain
//! values: which keys are held, how far the quad has turned, and whether the
//! loop still runs. A driver feeds it one event at a time and carries out the
//! action that comes back.

pub mod angle;
pub mod input;
pub mod machine;
pub mod trace;
