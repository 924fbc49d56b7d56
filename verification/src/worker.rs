//! The contract between the worker supervisor and a synchronous tight-loop
//! job: `setup` runs once on the job's thread, and `tick` runs until the
//! supervisor sets the stop flag.

use vstd::prelude::*;

verus! {

/// A synchronous tight-loop job run on a dedicated thread. `setup` returning
/// false stops the worker at once; each `tick` returning true counts as
/// progress for the supervisor's rate meter.
pub trait ThreadJob: Sized {
    /// Runs once on the worker's thread before the loop.
    fn setup(&mut self) -> bool;

    /// Runs repeatedly until the stop flag is set.
    fn tick(&mut self) -> bool;
}

} // verus!
