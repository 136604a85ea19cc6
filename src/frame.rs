//! The order of the work recorded and submitted for one displayed frame.
use vstd::prelude::*;

verus! {

/// One piece of per-frame work, in the order the frame performs them.
#[derive(Clone, Copy, Debug, PartialEq, Eq, Structural)]
pub enum FrameStep {
    /// Record the compute dispatch that advances the simulation.
    TickSimulation,
    /// Upload the camera's view-projection matrix.
    UpdateCamera,
    /// Record the depth-tested scene pass that samples the active simulation grid.
    DrawScene,
    /// Record the overlay pass, loading the same color target.
    DrawUi,
    /// Submit everything recorded as one batch.
    Submit,
    /// Present the surface texture.
    Present,
}

/// The position of `step` within a frame.
pub open spec fn step_rank(step: FrameStep) -> int {
    match step {
        FrameStep::TickSimulation => 0,
        FrameStep::UpdateCamera => 1,
        FrameStep::DrawScene => 2,
        FrameStep::DrawUi => 3,
        FrameStep::Submit => 4,
        FrameStep::Present => 5,
    }
}

/// Every frame begins by advancing the simulation.
pub fn first_step() -> (r: FrameStep)
    ensures
        step_rank(r) == 0,
{
    FrameStep::TickSimulation
}

/// Returns the step that follows `step` within the same frame, or `None` after presenting.
pub fn next_step(step: FrameStep) -> (r: Option<FrameStep>)
    ensures
        step_rank(step) < 5 <==> r is Some,
        r matches Some(n) ==> step_rank(n) == step_rank(step) + 1,
{
    match step {
        FrameStep::TickSimulation => Some(FrameStep::UpdateCamera),
        FrameStep::UpdateCamera => Some(FrameStep::DrawScene),
        FrameStep::DrawScene => Some(FrameStep::DrawUi),
        FrameStep::DrawUi => Some(FrameStep::Submit),
        FrameStep::Submit => Some(FrameStep::Present),
        FrameStep::Present => None,
    }
}

/// The dispatch that advances the simulation is recorded before the scene pass that samples
/// its result, and both are recorded before the single submission, which precedes presenting.
pub proof fn lemma_compute_before_sampling()
    ensures
        step_rank(FrameStep::TickSimulation) < step_rank(FrameStep::DrawScene),
        step_rank(FrameStep::DrawScene) < step_rank(FrameStep::DrawUi),
        step_rank(FrameStep::DrawUi) < step_rank(FrameStep::Submit),
        step_rank(FrameStep::Submit) < step_rank(FrameStep::Present),
{
}

} // verus!
