//! The frame protocol: which call comes next.
//!
//! A [`FrameMachine`] decides the order of the calls that make up one frame.
//! It is driven by [`FrameMachine::step`]: the driver hands in what happened
//! (a tick of the render loop, or the answer to the call that is outstanding)
//! and gets back the next [`FrameCall`] to make. The machine itself calls
//! nothing, so the order it imposes can be stated and proved for every
//! sequence of answers:
//!
//! * not running: `Sleep`, and the frame protocol is not touched;
//! * running: `WaitFrame`, `BeginFrame`, then, when the runtime says not to
//!   render, `EndFrame` with no layer;
//! * otherwise `CreateSwapchains` (the first time only), `SyncActions`,
//!   `LocateViews`, for each eye in order `AcquireImage`, `WaitImage`, `Draw`,
//!   `ReleaseImage`, and at last `EndFrame` with the projection layer.
//!
//! A failed draw does not stop the frame: the image is released and the frame
//! goes on. Any other failure, or an input that is not what the machine
//! waits for (the answer to the call that is outstanding, or a tick between
//! frames), stops the machine for good.

use crate::fault::FrameFault;
use vstd::prelude::*;

verus! {

/// The number of views of the stereo configuration, and so of swapchains.
pub const EYES: u32 = 2;

/// How long to sleep on a tick while the session is not running: one display
/// refresh at 60 Hz, in whole milliseconds.
pub const REFRESH_QUANTUM_MILLIS: u64 = 1000 / 60;

/// Where a frame stands: the call that is outstanding.
#[derive(Clone, Copy, Debug, PartialEq, Eq, Structural)]
pub enum FrameStage {
    /// Between frames: nothing is outstanding.
    Idle,
    Waiting,
    Beginning { should_render: bool },
    Creating,
    Syncing,
    Locating,
    Acquiring { eye: u32 },
    WaitingImage { eye: u32 },
    Drawing { eye: u32 },
    Releasing { eye: u32 },
    /// The end of a frame that was not rendered.
    EndingEmpty,
    /// The end of a frame that was rendered.
    Ending,
    /// A call failed: no further call is made.
    Failed,
}

/// What the driver is to do next.
#[derive(Clone, Copy, Debug, PartialEq, Eq, Structural)]
pub enum FrameCall {
    /// The session is not running: sleep this long and return.
    Sleep { millis: u64 },
    /// Block until the runtime says it is time to render.
    WaitFrame,
    BeginFrame,
    /// Create one swapchain per eye.
    CreateSwapchains,
    /// Sync the action set, once, before any pose is queried.
    SyncActions,
    /// Locate the views at the predicted display time.
    LocateViews,
    AcquireImage { eye: u32 },
    WaitImage { eye: u32 },
    /// Bind the image and call the draw callback for this eye.
    Draw { eye: u32 },
    ReleaseImage { eye: u32 },
    /// End the frame, with the projection layer of both eyes or with no layer.
    EndFrame { projection: bool },
    /// The frame is over.
    Complete { rendered: bool, draw_failed: bool },
    /// A call failed: give up.
    Abort,
}

/// What the driver reports to the machine.
#[derive(Clone, Copy, Debug, PartialEq, Eq, Structural)]
pub enum FrameInput {
    /// The render loop asks for a frame.
    Tick { running: bool },
    /// The answer to `WaitFrame`.
    FrameReady { should_render: bool },
    /// The outstanding call succeeded.
    Completed,
    /// The outstanding call failed.
    Failed,
}

/// How a frame ended.
#[derive(Clone, Copy, Debug, PartialEq, Eq, Structural)]
pub enum FrameOutcome {
    /// The session is not running. Nothing was asked of the runtime; the
    /// caller is to sleep this long.
    NotRunning { sleep_millis: u64 },
    /// The runtime said not to render: the frame was begun and ended with no
    /// layer.
    Skipped,
    /// Both eyes were drawn and submitted. `draw_failed` says whether a draw
    /// reported a fault.
    Rendered { draw_failed: bool },
}

/// What the runtime says of the frame to come, as `WaitFrame` returns it.
#[derive(Clone, Copy, Debug, PartialEq, Eq, Structural)]
pub struct FrameState {
    /// When the frame is expected to be shown, in nanoseconds of runtime time.
    pub predicted_display_time: i64,
    /// The time between two frames, in nanoseconds.
    pub predicted_display_period: i64,
    /// Whether the frame is to be rendered at all.
    pub should_render: bool,
}

/// The machine as a plain value.
pub struct FrameModel {
    pub stage: FrameStage,
    /// Whether the swapchains exist.
    pub swapchains_ready: bool,
    /// Whether a draw of the frame under way has failed.
    pub draw_failed: bool,
}

/// The decisions of one frame.
pub struct FrameMachine {
    stage: FrameStage,
    swapchains_ready: bool,
    draw_failed: bool,
}

/// The eye that a stage works on, if any.
pub open spec fn stage_eye(stage: FrameStage) -> Option<u32> {
    match stage {
        FrameStage::Acquiring { eye } => Some(eye),
        FrameStage::WaitingImage { eye } => Some(eye),
        FrameStage::Drawing { eye } => Some(eye),
        FrameStage::Releasing { eye } => Some(eye),
        _ => None,
    }
}

/// The call that is outstanding in a stage, if the stage has one.
pub open spec fn stage_call(stage: FrameStage) -> Option<FrameCall> {
    match stage {
        FrameStage::Idle => None,
        FrameStage::Waiting => Some(FrameCall::WaitFrame),
        FrameStage::Beginning { .. } => Some(FrameCall::BeginFrame),
        FrameStage::Creating => Some(FrameCall::CreateSwapchains),
        FrameStage::Syncing => Some(FrameCall::SyncActions),
        FrameStage::Locating => Some(FrameCall::LocateViews),
        FrameStage::Acquiring { eye } => Some(FrameCall::AcquireImage { eye }),
        FrameStage::WaitingImage { eye } => Some(FrameCall::WaitImage { eye }),
        FrameStage::Drawing { eye } => Some(FrameCall::Draw { eye }),
        FrameStage::Releasing { eye } => Some(FrameCall::ReleaseImage { eye }),
        FrameStage::EndingEmpty => Some(FrameCall::EndFrame { projection: false }),
        FrameStage::Ending => Some(FrameCall::EndFrame { projection: true }),
        FrameStage::Failed => None,
    }
}

/// Whether a call asks nothing of the runtime: the driver returns on it.
pub open spec fn is_last_call(call: FrameCall) -> bool {
    match call {
        FrameCall::Sleep { .. } => true,
        FrameCall::Complete { .. } => true,
        FrameCall::Abort => true,
        _ => false,
    }
}

/// How the call that closes a frame reads as an outcome. A call that closes
/// no frame, or gives one up, reads as none.
pub open spec fn outcome_of_call(call: FrameCall) -> Option<FrameOutcome> {
    match call {
        FrameCall::Sleep { millis } => Some(FrameOutcome::NotRunning { sleep_millis: millis }),
        FrameCall::Complete { rendered, draw_failed } => if rendered {
            Some(FrameOutcome::Rendered { draw_failed })
        } else {
            Some(FrameOutcome::Skipped)
        },
        _ => None,
    }
}

/// The result of a frame that closed on `call`, after `fault` was met, if
/// any was.
pub open spec fn frame_result(call: FrameCall, fault: Option<FrameFault>) -> Result<
    FrameOutcome,
    FrameFault,
> {
    match outcome_of_call(call) {
        Some(outcome) => Ok(outcome),
        None => match fault {
            Some(fault) => Err(fault),
            None => Err(FrameFault::Halted),
        },
    }
}

/// Whether a stage comes after the swapchains were seen to exist.
pub open spec fn uses_swapchains(stage: FrameStage) -> bool {
    match stage {
        FrameStage::Syncing => true,
        FrameStage::Locating => true,
        FrameStage::Acquiring { .. } => true,
        FrameStage::WaitingImage { .. } => true,
        FrameStage::Drawing { .. } => true,
        FrameStage::Releasing { .. } => true,
        FrameStage::Ending => true,
        _ => false,
    }
}

/// What holds of every machine that was made by `new` and driven by `step`:
/// its eye is one of the two, it works on swapchains only once they exist,
/// and it creates them only while they do not.
pub open spec fn reachable(m: FrameModel) -> bool {
    &&& stage_eye(m.stage) matches Some(eye) ==> eye < EYES
    &&& uses_swapchains(m.stage) ==> m.swapchains_ready
    &&& m.stage == FrameStage::Creating ==> !m.swapchains_ready
}

/// The machine after a failure.
pub open spec fn halted(m: FrameModel) -> (FrameModel, FrameCall) {
    (FrameModel { stage: FrameStage::Failed, ..m }, FrameCall::Abort)
}

/// The machine in a new stage, with the call that opens it.
pub open spec fn moved(m: FrameModel, stage: FrameStage, call: FrameCall) -> (
    FrameModel,
    FrameCall,
) {
    (FrameModel { stage, ..m }, call)
}

/// What follows the release of an eye's image: the next eye, or the end of
/// the frame.
pub open spec fn after_release(m: FrameModel, eye: u32) -> (FrameModel, FrameCall) {
    if eye < EYES - 1 {
        let next = (eye + 1) as u32;
        moved(m, FrameStage::Acquiring { eye: next }, FrameCall::AcquireImage { eye: next })
    } else {
        moved(m, FrameStage::Ending, FrameCall::EndFrame { projection: true })
    }
}

/// The transition function: the machine after `input`, and the call it asks
/// for.
pub open spec fn step_model(m: FrameModel, input: FrameInput) -> (FrameModel, FrameCall) {
    match m.stage {
        FrameStage::Idle => match input {
            FrameInput::Tick { running } => if running {
                (
                    FrameModel { stage: FrameStage::Waiting, draw_failed: false, ..m },
                    FrameCall::WaitFrame,
                )
            } else {
                (m, FrameCall::Sleep { millis: REFRESH_QUANTUM_MILLIS })
            },
            _ => halted(m),
        },
        FrameStage::Waiting => match input {
            FrameInput::FrameReady { should_render } => moved(
                m,
                FrameStage::Beginning { should_render },
                FrameCall::BeginFrame,
            ),
            _ => halted(m),
        },
        FrameStage::Beginning { should_render } => match input {
            FrameInput::Completed => if !should_render {
                moved(m, FrameStage::EndingEmpty, FrameCall::EndFrame { projection: false })
            } else if m.swapchains_ready {
                moved(m, FrameStage::Syncing, FrameCall::SyncActions)
            } else {
                moved(m, FrameStage::Creating, FrameCall::CreateSwapchains)
            },
            _ => halted(m),
        },
        FrameStage::Creating => match input {
            FrameInput::Completed => (
                FrameModel { stage: FrameStage::Syncing, swapchains_ready: true, ..m },
                FrameCall::SyncActions,
            ),
            _ => halted(m),
        },
        FrameStage::Syncing => match input {
            FrameInput::Completed => moved(m, FrameStage::Locating, FrameCall::LocateViews),
            _ => halted(m),
        },
        FrameStage::Locating => match input {
            FrameInput::Completed => moved(
                m,
                FrameStage::Acquiring { eye: 0 },
                FrameCall::AcquireImage { eye: 0 },
            ),
            _ => halted(m),
        },
        FrameStage::Acquiring { eye } => match input {
            FrameInput::Completed => moved(
                m,
                FrameStage::WaitingImage { eye },
                FrameCall::WaitImage { eye },
            ),
            _ => halted(m),
        },
        FrameStage::WaitingImage { eye } => match input {
            FrameInput::Completed => moved(m, FrameStage::Drawing { eye }, FrameCall::Draw { eye }),
            _ => halted(m),
        },
        FrameStage::Drawing { eye } => (
            FrameModel {
                stage: FrameStage::Releasing { eye },
                draw_failed: m.draw_failed || input != FrameInput::Completed,
                ..m
            },
            FrameCall::ReleaseImage { eye },
        ),
        FrameStage::Releasing { eye } => match input {
            FrameInput::Completed => after_release(m, eye),
            _ => halted(m),
        },
        FrameStage::EndingEmpty => match input {
            FrameInput::Completed => moved(
                m,
                FrameStage::Idle,
                FrameCall::Complete { rendered: false, draw_failed: false },
            ),
            _ => halted(m),
        },
        FrameStage::Ending => match input {
            FrameInput::Completed => moved(
                m,
                FrameStage::Idle,
                FrameCall::Complete { rendered: true, draw_failed: m.draw_failed },
            ),
            _ => halted(m),
        },
        FrameStage::Failed => halted(m),
    }
}

/// How many calls a frame can still ask for, counted from a stage.
pub open spec fn calls_left(stage: FrameStage) -> nat {
    match stage {
        FrameStage::Idle => 0,
        FrameStage::Failed => 0,
        FrameStage::Ending => 1,
        FrameStage::EndingEmpty => 1,
        FrameStage::Releasing { eye } => eye_calls_left(eye),
        FrameStage::Drawing { eye } => eye_calls_left(eye) + 1,
        FrameStage::WaitingImage { eye } => eye_calls_left(eye) + 2,
        FrameStage::Acquiring { eye } => eye_calls_left(eye) + 3,
        FrameStage::Locating => eye_calls_left(0) + 4,
        FrameStage::Syncing => eye_calls_left(0) + 5,
        FrameStage::Creating => eye_calls_left(0) + 6,
        FrameStage::Beginning { .. } => eye_calls_left(0) + 7,
        FrameStage::Waiting => eye_calls_left(0) + 8,
    }
}

/// The calls still to come once an eye's image is being released.
pub open spec fn eye_calls_left(eye: u32) -> nat {
    if eye < EYES - 1 {
        (2 + 4 * (EYES - 1 - eye)) as nat
    } else {
        2
    }
}

/// The result of a frame that closed on `call`. A frame that was given up
/// results in the fault that was met on the way; where none was met in this
/// frame, an earlier frame was given up.
pub fn close_frame(call: FrameCall, fault: Option<FrameFault>) -> (out: Result<
    FrameOutcome,
    FrameFault,
>)
    ensures
        out == frame_result(call, fault),
{
    match call {
        FrameCall::Sleep { millis } => Ok(FrameOutcome::NotRunning { sleep_millis: millis }),
        FrameCall::Complete { rendered, draw_failed } => if rendered {
            Ok(FrameOutcome::Rendered { draw_failed })
        } else {
            Ok(FrameOutcome::Skipped)
        },
        _ => match fault {
            Some(fault) => Err(fault),
            None => Err(FrameFault::Halted),
        },
    }
}

/// The located views must be one per eye.
pub fn check_view_count(found: usize) -> (checked: Result<(), FrameFault>)
    ensures
        checked == if found == EYES {
            Ok::<(), FrameFault>(())
        } else {
            Err::<(), FrameFault>(FrameFault::ViewCount { found })
        },
{
    if found == EYES as usize {
        Ok(())
    } else {
        Err(FrameFault::ViewCount { found })
    }
}

impl FrameCall {
    /// Whether this call asks nothing of the runtime: the driver returns on
    /// it.
    pub fn is_last(&self) -> (last: bool)
        ensures
            last == is_last_call(*self),
    {
        match self {
                FrameCall::Sleep { .. } => true,
            FrameCall::Complete { .. } => true,
            FrameCall::Abort => true,
            _ => false,
        }
    }
}

impl View for FrameMachine {
    type V = FrameModel;

    closed spec fn view(&self) -> FrameModel {
        FrameModel {
            stage: self.stage,
            swapchains_ready: self.swapchains_ready,
            draw_failed: self.draw_failed,
        }
    }
}

impl FrameMachine {
    #[verifier::type_invariant]
    spec fn inv(self) -> bool {
        reachable(self@)
    }

    /// A machine between frames, with no swapchains yet.
    pub fn new() -> (machine: FrameMachine)
        ensures
            machine@ == (FrameModel {
                stage: FrameStage::Idle,
                swapchains_ready: false,
                draw_failed: false,
            }),
    {
        FrameMachine { stage: FrameStage::Idle, swapchains_ready: false, draw_failed: false }
    }

    /// The stage of the frame.
    pub fn stage(&self) -> (stage: FrameStage)
        ensures
            stage == self@.stage,
            reachable(self@),
    {
        proof {
            use_type_invariant(self);
        }
        self.stage
    }

    /// Whether the swapchains exist.
    pub fn swapchains_ready(&self) -> (ready: bool)
        ensures
            ready == self@.swapchains_ready,
    {
        self.swapchains_ready
    }

    /// Whether no frame is under way and none has failed.
    pub fn at_rest(&self) -> (rest: bool)
        ensures
            rest == (self@.stage == FrameStage::Idle),
    {
        match self.stage {
            FrameStage::Idle => true,
            _ => false,
        }
    }

    /// Takes a tick or the answer to the outstanding call, and says what to
    /// do next.
    pub fn step(&mut self, input: FrameInput) -> (call: FrameCall)
        ensures
            (final(self)@, call) == step_model(old(self)@, input),
            reachable(old(self)@),
            reachable(final(self)@),
            match stage_call(final(self)@.stage) {
                Some(outstanding) => call == outstanding,
                None => is_last_call(call),
            },
    {
        proof {
            use_type_invariant(&*self);
        }
        let completed = match input {
            FrameInput::Completed => true,
            _ => false,
        };
        let mut ready = self.swapchains_ready;
        let mut draw_failed = self.draw_failed;
        let (stage, call) = match self.stage {
            FrameStage::Idle => match input {
                FrameInput::Tick { running } => if running {
                    draw_failed = false;
                    (FrameStage::Waiting, FrameCall::WaitFrame)
                } else {
                    (FrameStage::Idle, FrameCall::Sleep { millis: REFRESH_QUANTUM_MILLIS })
                },
                _ => (FrameStage::Failed, FrameCall::Abort),
            },
            FrameStage::Waiting => match input {
                FrameInput::FrameReady { should_render } => (
                    FrameStage::Beginning { should_render },
                    FrameCall::BeginFrame,
                ),
                _ => (FrameStage::Failed, FrameCall::Abort),
            },
            FrameStage::Beginning { should_render } => if !completed {
                (FrameStage::Failed, FrameCall::Abort)
            } else if !should_render {
                (FrameStage::EndingEmpty, FrameCall::EndFrame { projection: false })
            } else if ready {
                (FrameStage::Syncing, FrameCall::SyncActions)
            } else {
                (FrameStage::Creating, FrameCall::CreateSwapchains)
            },
            FrameStage::Creating => if completed {
                ready = true;
                (FrameStage::Syncing, FrameCall::SyncActions)
            } else {
                (FrameStage::Failed, FrameCall::Abort)
            },
            FrameStage::Syncing => if completed {
                (FrameStage::Locating, FrameCall::LocateViews)
            } else {
                (FrameStage::Failed, FrameCall::Abort)
            },
            FrameStage::Locating => if completed {
                (FrameStage::Acquiring { eye: 0 }, FrameCall::AcquireImage { eye: 0 })
            } else {
                (FrameStage::Failed, FrameCall::Abort)
            },
            FrameStage::Acquiring { eye } => if completed {
                (FrameStage::WaitingImage { eye }, FrameCall::WaitImage { eye })
            } else {
                (FrameStage::Failed, FrameCall::Abort)
            },
            FrameStage::WaitingImage { eye } => if completed {
                (FrameStage::Drawing { eye }, FrameCall::Draw { eye })
            } else {
                (FrameStage::Failed, FrameCall::Abort)
            },
            FrameStage::Drawing { eye } => {
                if !completed {
                    draw_failed = true;
                }
                (FrameStage::Releasing { eye }, FrameCall::ReleaseImage { eye })
            },
            FrameStage::Releasing { eye } => if !completed {
                (FrameStage::Failed, FrameCall::Abort)
            } else if eye < EYES - 1 {
                (FrameStage::Acquiring { eye: eye + 1 }, FrameCall::AcquireImage { eye: eye + 1 })
            } else {
                (FrameStage::Ending, FrameCall::EndFrame { projection: true })
            },
            FrameStage::EndingEmpty => if completed {
                (FrameStage::Idle, FrameCall::Complete { rendered: false, draw_failed: false })
            } else {
                (FrameStage::Failed, FrameCall::Abort)
            },
            FrameStage::Ending => if completed {
                (FrameStage::Idle, FrameCall::Complete { rendered: true, draw_failed })
            } else {
                (FrameStage::Failed, FrameCall::Abort)
            },
            FrameStage::Failed => (FrameStage::Failed, FrameCall::Abort),
        };
        *self = FrameMachine { stage, swapchains_ready: ready, draw_failed };
        call
    }
}

} // verus!
