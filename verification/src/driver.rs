//! The order of a frame: await it, run the passes over it, present it.

use vstd::prelude::*;

verus! {

/// Where the driver stands.
#[derive(Clone, Copy, Debug, PartialEq, Eq, Structural)]
pub enum FrameState {
    /// The device is asked for the next frame.
    AwaitFrame,
    /// The passes run over the frame, in their order.
    Dispatch,
    /// The device presents the frame and says whether to go on.
    Present,
    /// The device asked to stop.
    Finished,
}

/// What the driver has done by the time it leaves a state.
#[derive(Clone, Copy, Debug, PartialEq, Eq, Structural)]
pub enum FrameAction {
    BeginFrame,
    RenderPasses,
    EndFrame,
    Stop,
}

/// The work of a state.
pub open spec fn action_of(state: FrameState) -> FrameAction {
    match state {
        FrameState::AwaitFrame => FrameAction::BeginFrame,
        FrameState::Dispatch => FrameAction::RenderPasses,
        FrameState::Present => FrameAction::EndFrame,
        FrameState::Finished => FrameAction::Stop,
    }
}

/// The state that follows, where `done` is what the device reported when it
/// last presented a frame.
pub open spec fn next_state(state: FrameState, done: bool) -> FrameState {
    match state {
        FrameState::AwaitFrame => FrameState::Dispatch,
        FrameState::Dispatch => FrameState::Present,
        FrameState::Present => if done {
            FrameState::Finished
        } else {
            FrameState::AwaitFrame
        },
        FrameState::Finished => FrameState::Finished,
    }
}

/// The work to do in `state`.
pub fn action(state: FrameState) -> (r: FrameAction)
    ensures
        r == action_of(state),
{
    match state {
        FrameState::AwaitFrame => FrameAction::BeginFrame,
        FrameState::Dispatch => FrameAction::RenderPasses,
        FrameState::Present => FrameAction::EndFrame,
        FrameState::Finished => FrameAction::Stop,
    }
}

/// Leaves `state` once its work is done.
pub fn advance(state: FrameState, done: bool) -> (r: FrameState)
    ensures
        r == next_state(state, done),
{
    match state {
        FrameState::AwaitFrame => FrameState::Dispatch,
        FrameState::Dispatch => FrameState::Present,
        FrameState::Present => if done {
            FrameState::Finished
        } else {
            FrameState::AwaitFrame
        },
        FrameState::Finished => FrameState::Finished,
    }
}

/// The driver stops only after a frame was presented and the device asked
/// for it, and a frame that was begun is always dispatched and presented.
pub proof fn lemma_only_present_finishes(state: FrameState, done: bool)
    ensures
        next_state(state, done) == FrameState::Finished <==> (state == FrameState::Finished || (
        state == FrameState::Present && done)),
        next_state(next_state(FrameState::AwaitFrame, done), done) == FrameState::Present,
{
}

} // verus!
