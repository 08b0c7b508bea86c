//! The task-spawning capability handed to the consensus engine.

use vstd::prelude::*;

verus! {

/// Marker for the capability to schedule the engine's long-lived tasks on
/// the session's cooperative task pool. Spawning itself is runtime plumbing
/// outside the library; the engine only needs a value standing for the
/// capability it was given.
#[derive(Clone, Copy, Debug)]
pub struct Spawner;

} // verus!
