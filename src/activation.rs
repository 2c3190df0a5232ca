//! The execution context handed to every runtime entry point.
use crate::object::{ObjRef, ObjectArena};
use vstd::prelude::*;

verus! {

/// The current execution context: the object arena, the global object of
/// the calling scope, and the elapsed time that the host last reported.
pub struct Activation {
    pub arena: ObjectArena,
    /// The global object of the calling scope, if a scope is active.
    pub globals: Option<ObjRef>,
    /// Milliseconds elapsed since the runtime's launch.
    pub time_since_launch_ms: u128,
}

} // verus!
