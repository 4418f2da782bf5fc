//! What holds of every run of the frame machine.
//!
//! A run starts from a machine between frames and feeds it any sequence of
//! inputs: ticks while running or not, any `should_render` answers, calls that
//! succeed or fail, inputs that answer nothing. The laws below speak of the
//! calls that the machine asks for along such a run.

use crate::frame::{
    calls_left, step_model, FrameCall, FrameInput, FrameModel, FrameStage,
};
use vstd::prelude::*;

verus! {

/// The machine after a sequence of inputs.
pub open spec fn state_after(m: FrameModel, inputs: Seq<FrameInput>) -> FrameModel
    decreases inputs.len(),
{
    if inputs.len() == 0 {
        m
    } else {
        step_model(state_after(m, inputs.drop_last()), inputs.last()).0
    }
}

/// The calls that the machine asks for along a sequence of inputs, in order.
pub open spec fn calls_issued(m: FrameModel, inputs: Seq<FrameInput>) -> Seq<FrameCall>
    decreases inputs.len(),
{
    if inputs.len() == 0 {
        Seq::empty()
    } else {
        calls_issued(m, inputs.drop_last()).push(
            step_model(state_after(m, inputs.drop_last()), inputs.last()).1,
        )
    }
}

/// How often a call occurs in a sequence of calls.
pub open spec fn count(calls: Seq<FrameCall>, wanted: FrameCall) -> nat
    decreases calls.len(),
{
    if calls.len() == 0 {
        0
    } else {
        count(calls.drop_last(), wanted) + if calls.last() == wanted {
            1nat
        } else {
            0nat
        }
    }
}

/// How many frames were begun.
pub open spec fn begins(calls: Seq<FrameCall>) -> nat {
    count(calls, FrameCall::BeginFrame)
}

/// How many frames were ended, with or without a layer.
pub open spec fn ends(calls: Seq<FrameCall>) -> nat {
    count(calls, FrameCall::EndFrame { projection: false }) + count(
        calls,
        FrameCall::EndFrame { projection: true },
    )
}

/// Whether a frame has been begun and not yet ended.
pub open spec fn frame_open(stage: FrameStage) -> bool {
    match stage {
        FrameStage::Beginning { .. } => true,
        FrameStage::Creating => true,
        FrameStage::Syncing => true,
        FrameStage::Locating => true,
        FrameStage::Acquiring { .. } => true,
        FrameStage::WaitingImage { .. } => true,
        FrameStage::Drawing { .. } => true,
        FrameStage::Releasing { .. } => true,
        _ => false,
    }
}

/// Whether the image of `eye` has been asked for and its release has not.
pub open spec fn image_out(stage: FrameStage, eye: u32) -> bool {
    stage == (FrameStage::Acquiring { eye }) || stage == (FrameStage::WaitingImage { eye })
        || stage == (FrameStage::Drawing { eye })
}

proof fn lemma_count_push(calls: Seq<FrameCall>, call: FrameCall, wanted: FrameCall)
    ensures
        count(calls.push(call), wanted) == count(calls, wanted) + if call == wanted {
            1nat
        } else {
            0nat
        },
{
    assert(calls.push(call).drop_last() =~= calls);
    assert(calls.push(call).last() == call);
}

/// Each call of a frame uses up the calls that are left: a frame that has
/// started is over, or has failed, after at most fourteen more calls.
pub proof fn lemma_step_uses_up_calls(m: FrameModel, input: FrameInput)
    requires
        m.stage != FrameStage::Idle,
        m.stage != FrameStage::Failed,
    ensures
        calls_left(step_model(m, input).0.stage) < calls_left(m.stage),
        calls_left(m.stage) <= 14,
{
}

/// A run is the run of its first inputs, then the run of the rest from where
/// the first left the machine.
pub proof fn lemma_run_split(m: FrameModel, first: Seq<FrameInput>, rest: Seq<FrameInput>)
    ensures
        state_after(m, first + rest) == state_after(state_after(m, first), rest),
        calls_issued(m, first + rest) == calls_issued(m, first) + calls_issued(
            state_after(m, first),
            rest,
        ),
    decreases rest.len(),
{
    if rest.len() == 0 {
        assert(first + rest =~= first);
        assert(calls_issued(m, first) + Seq::<FrameCall>::empty() =~= calls_issued(m, first));
    } else {
        lemma_run_split(m, first, rest.drop_last());
        assert((first + rest).drop_last() =~= first + rest.drop_last());
        assert((first + rest).last() == rest.last());
        let mid = state_after(m, first);
        let call = step_model(state_after(mid, rest.drop_last()), rest.last()).1;
        assert((calls_issued(m, first) + calls_issued(mid, rest.drop_last())).push(call)
            =~= calls_issued(m, first) + calls_issued(mid, rest.drop_last()).push(call));
    }
}

spec fn paired_inv(stage: FrameStage, calls: Seq<FrameCall>) -> bool {
    let b = begins(calls);
    let e = ends(calls);
    if stage == FrameStage::Failed {
        e <= b <= e + 1
    } else if frame_open(stage) {
        b == e + 1
    } else {
        b == e
    }
}

proof fn lemma_paired_inv(m: FrameModel, inputs: Seq<FrameInput>)
    requires
        m.stage == FrameStage::Idle,
    ensures
        paired_inv(state_after(m, inputs).stage, calls_issued(m, inputs)),
    decreases inputs.len(),
{
    if inputs.len() > 0 {
        let head = inputs.drop_last();
        lemma_paired_inv(m, head);
        let calls = calls_issued(m, head);
        let call = step_model(state_after(m, head), inputs.last()).1;
        lemma_count_push(calls, call, FrameCall::BeginFrame);
        lemma_count_push(calls, call, FrameCall::EndFrame { projection: false });
        lemma_count_push(calls, call, FrameCall::EndFrame { projection: true });
    }
}

/// Begin and end are strictly paired. Along every run, however the calls
/// answer and whatever `should_render` says from frame to frame, the machine
/// never asks to begin a frame while another is open, and never asks to end a
/// frame that is not open: after any number of inputs the frames begun are the
/// frames ended, plus the one that is open. Between frames every frame that
/// was begun has been ended exactly once.
pub proof fn lemma_frames_paired(m: FrameModel, inputs: Seq<FrameInput>, upto: int)
    requires
        m.stage == FrameStage::Idle,
        0 <= upto <= inputs.len(),
    ensures
        ({
            let calls = calls_issued(m, inputs).take(upto);
            let stage = state_after(m, inputs.take(upto)).stage;
            &&& calls == calls_issued(m, inputs.take(upto))
            &&& ends(calls) <= begins(calls) <= ends(calls) + 1
            &&& stage != FrameStage::Failed ==> begins(calls) == ends(calls) + if frame_open(
                stage,
            ) {
                1nat
            } else {
                0nat
            }
            &&& stage == FrameStage::Idle ==> begins(calls) == ends(calls)
        }),
{
    let first = inputs.take(upto);
    let rest = inputs.skip(upto);
    assert(first + rest =~= inputs);
    lemma_run_split(m, first, rest);
    lemma_calls_len(m, first);
    assert(calls_issued(m, inputs).take(upto) =~= calls_issued(m, first));
    lemma_paired_inv(m, first);
}

/// The machine asks for one call per input.
pub proof fn lemma_calls_len(m: FrameModel, inputs: Seq<FrameInput>)
    ensures
        calls_issued(m, inputs).len() == inputs.len(),
    decreases inputs.len(),
{
    if inputs.len() > 0 {
        lemma_calls_len(m, inputs.drop_last());
    }
}

spec fn image_inv(stage: FrameStage, calls: Seq<FrameCall>, eye: u32) -> bool {
    let a = count(calls, FrameCall::AcquireImage { eye });
    let d = count(calls, FrameCall::Draw { eye });
    let r = count(calls, FrameCall::ReleaseImage { eye });
    &&& d == r + if stage == (FrameStage::Drawing { eye }) {
        1nat
    } else {
        0nat
    }
    &&& if stage == FrameStage::Failed {
        r <= a <= r + 1
    } else if image_out(stage, eye) {
        a == r + 1
    } else {
        a == r
    }
}

proof fn lemma_image_inv(m: FrameModel, inputs: Seq<FrameInput>, eye: u32)
    requires
        m.stage == FrameStage::Idle,
    ensures
        image_inv(state_after(m, inputs).stage, calls_issued(m, inputs), eye),
    decreases inputs.len(),
{
    if inputs.len() > 0 {
        let head = inputs.drop_last();
        lemma_image_inv(m, head, eye);
        let calls = calls_issued(m, head);
        let call = step_model(state_after(m, head), inputs.last()).1;
        lemma_count_push(calls, call, FrameCall::AcquireImage { eye });
        lemma_count_push(calls, call, FrameCall::Draw { eye });
        lemma_count_push(calls, call, FrameCall::ReleaseImage { eye });
    }
}

/// Every image that is acquired is released exactly once. Along every run and
/// for each eye: a draw, whether it succeeds or fails, is followed by the
/// release of the image before anything else is asked for; the machine never
/// asks to acquire an image of an eye whose last image is still out; and
/// between frames every image that was acquired has been released.
pub proof fn lemma_images_released(m: FrameModel, inputs: Seq<FrameInput>, eye: u32)
    requires
        m.stage == FrameStage::Idle,
    ensures
        ({
            let calls = calls_issued(m, inputs);
            let stage = state_after(m, inputs).stage;
            let acquired = count(calls, FrameCall::AcquireImage { eye });
            let drawn = count(calls, FrameCall::Draw { eye });
            let released = count(calls, FrameCall::ReleaseImage { eye });
            &&& released <= acquired <= released + 1
            &&& stage != (FrameStage::Drawing { eye }) ==> drawn == released
            &&& stage == FrameStage::Idle ==> acquired == released
        }),
{
    lemma_image_inv(m, inputs, eye);
}

/// Whatever a draw reports, the next call releases the image of that eye.
pub proof fn lemma_release_follows_draw(m: FrameModel, eye: u32, input: FrameInput)
    requires
        m.stage == (FrameStage::Drawing { eye }),
    ensures
        step_model(m, input).1 == (FrameCall::ReleaseImage { eye }),
        step_model(m, input).0.stage == (FrameStage::Releasing { eye }),
        step_model(m, input).0.draw_failed == (m.draw_failed || input != FrameInput::Completed),
{
}

spec fn creation_inv(m0: FrameModel, m: FrameModel, calls: Seq<FrameCall>) -> bool {
    let c = count(calls, FrameCall::CreateSwapchains);
    &&& m0.swapchains_ready ==> m.swapchains_ready && c == 0
    &&& m.swapchains_ready ==> c <= 1 && m.stage != FrameStage::Creating
    &&& !m.swapchains_ready ==> if m.stage == FrameStage::Creating {
        c == 1
    } else if m.stage == FrameStage::Failed {
        c <= 1
    } else {
        c == 0
    }
}

proof fn lemma_creation_inv(m: FrameModel, inputs: Seq<FrameInput>)
    requires
        m.stage == FrameStage::Idle,
    ensures
        creation_inv(m, state_after(m, inputs), calls_issued(m, inputs)),
    decreases inputs.len(),
{
    if inputs.len() > 0 {
        let head = inputs.drop_last();
        lemma_creation_inv(m, head);
        lemma_count_push(
            calls_issued(m, head),
            step_model(state_after(m, head), inputs.last()).1,
            FrameCall::CreateSwapchains,
        );
    }
}

/// The swapchains are created at most once. Along every run the machine asks
/// for them at most once, and never when they exist already; once they exist
/// they stay.
pub proof fn lemma_swapchains_created_once(m: FrameModel, inputs: Seq<FrameInput>)
    requires
        m.stage == FrameStage::Idle,
    ensures
        count(calls_issued(m, inputs), FrameCall::CreateSwapchains) <= 1,
        m.swapchains_ready ==> count(calls_issued(m, inputs), FrameCall::CreateSwapchains) == 0,
        m.swapchains_ready ==> state_after(m, inputs).swapchains_ready,
{
    lemma_creation_inv(m, inputs);
}

/// Feeding one more input is one more step.
pub proof fn lemma_run_push(m: FrameModel, inputs: Seq<FrameInput>, input: FrameInput)
    ensures
        state_after(m, inputs.push(input)) == step_model(state_after(m, inputs), input).0,
        calls_issued(m, inputs.push(input)) == calls_issued(m, inputs).push(
            step_model(state_after(m, inputs), input).1,
        ),
{
    assert(inputs.push(input).drop_last() =~= inputs);
    assert(inputs.push(input).last() == input);
}

/// While the session is not running a tick asks for a sleep of one refresh
/// quantum and nothing else: the frame protocol is not touched.
pub proof fn lemma_idle_tick(m: FrameModel)
    requires
        m.stage == FrameStage::Idle,
    ensures
        step_model(m, FrameInput::Tick { running: false }) == (
            m,
            FrameCall::Sleep { millis: 16 },
        ),
{
}

/// The inputs of a frame that the runtime says not to render, every call
/// succeeding.
pub open spec fn skipped_frame_inputs() -> Seq<FrameInput> {
    Seq::empty().push(FrameInput::Tick { running: true }).push(
        FrameInput::FrameReady { should_render: false },
    ).push(FrameInput::Completed).push(FrameInput::Completed)
}

/// The calls of a frame that is not rendered, in order.
pub open spec fn skipped_frame_calls() -> Seq<FrameCall> {
    Seq::empty().push(FrameCall::WaitFrame).push(FrameCall::BeginFrame).push(
        FrameCall::EndFrame { projection: false },
    ).push(FrameCall::Complete { rendered: false, draw_failed: false })
}

/// A frame that is not to be rendered waits, begins, and ends with no layer:
/// no swapchain is created or touched.
pub proof fn lemma_skipped_frame(m: FrameModel)
    requires
        m.stage == FrameStage::Idle,
    ensures
        calls_issued(m, skipped_frame_inputs()) == skipped_frame_calls(),
        state_after(m, skipped_frame_inputs()) == (FrameModel { draw_failed: false, ..m }),
{
    let done = FrameInput::Completed;
    let i0 = Seq::<FrameInput>::empty();
    let i1 = i0.push(FrameInput::Tick { running: true });
    let i2 = i1.push(FrameInput::FrameReady { should_render: false });
    let i3 = i2.push(done);
    lemma_run_push(m, i0, FrameInput::Tick { running: true });
    lemma_run_push(m, i1, FrameInput::FrameReady { should_render: false });
    lemma_run_push(m, i2, done);
    lemma_run_push(m, i3, done);
}

/// The inputs that open a rendered frame, up to the point where the
/// swapchains exist: the tick, the answer to the wait, the begin that
/// succeeds, and the creation that succeeds where one is asked for.
pub open spec fn opening_inputs(create: bool) -> Seq<FrameInput> {
    let begun = Seq::empty().push(FrameInput::Tick { running: true }).push(
        FrameInput::FrameReady { should_render: true },
    ).push(FrameInput::Completed);
    if create {
        begun.push(FrameInput::Completed)
    } else {
        begun
    }
}

/// The inputs of a frame that is rendered, every call succeeding but for the
/// draws, which report as given: the opening, the actions synced and the
/// poses located, then for each eye the acquire, the wait, the draw and the
/// release, and at last the end of the frame.
pub open spec fn rendered_frame_inputs(create: bool, left: FrameInput, right: FrameInput) -> Seq<
    FrameInput,
> {
    let done = FrameInput::Completed;
    opening_inputs(create).push(done).push(done).push(done).push(done).push(left).push(done).push(
        done,
    ).push(done).push(right).push(done).push(done)
}

/// The calls that open a rendered frame.
pub open spec fn opening_calls(create: bool) -> Seq<FrameCall> {
    let begun = Seq::empty().push(FrameCall::WaitFrame).push(FrameCall::BeginFrame);
    if create {
        begun.push(FrameCall::CreateSwapchains)
    } else {
        begun
    }
}

/// The calls of a rendered frame, in order: the swapchains first if they do
/// not exist yet, then the poses, then each eye in turn, then the end of the
/// frame with the projection layer.
pub open spec fn rendered_frame_calls(create: bool, draw_failed: bool) -> Seq<FrameCall> {
    opening_calls(create).push(FrameCall::SyncActions).push(FrameCall::LocateViews).push(
        FrameCall::AcquireImage { eye: 0 },
    ).push(FrameCall::WaitImage { eye: 0 }).push(FrameCall::Draw { eye: 0 }).push(
        FrameCall::ReleaseImage { eye: 0 },
    ).push(FrameCall::AcquireImage { eye: 1 }).push(FrameCall::WaitImage { eye: 1 }).push(
        FrameCall::Draw { eye: 1 },
    ).push(FrameCall::ReleaseImage { eye: 1 }).push(FrameCall::EndFrame { projection: true }).push(
        FrameCall::Complete { rendered: true, draw_failed },
    )
}

/// The machine in a stage of a frame that is being rendered.
spec fn rendering(stage: FrameStage, draw_failed: bool) -> FrameModel {
    FrameModel { stage, swapchains_ready: true, draw_failed }
}

/// The opening of a rendered frame leaves the action sync outstanding.
proof fn lemma_opening(m: FrameModel)
    requires
        m.stage == FrameStage::Idle,
    ensures
        state_after(m, opening_inputs(!m.swapchains_ready)) == rendering(
            FrameStage::Syncing,
            false,
        ),
        calls_issued(m, opening_inputs(!m.swapchains_ready)) == opening_calls(
            !m.swapchains_ready,
        ).push(FrameCall::SyncActions),
{
    let done = FrameInput::Completed;
    let tick = FrameInput::Tick { running: true };
    let ready = FrameInput::FrameReady { should_render: true };
    let i0 = Seq::<FrameInput>::empty();
    let i1 = i0.push(tick);
    let i2 = i1.push(ready);
    let i3 = i2.push(done);
    lemma_run_push(m, i0, tick);
    lemma_run_push(m, i1, ready);
    lemma_run_push(m, i2, done);
    if !m.swapchains_ready {
        lemma_run_push(m, i3, done);
    }
}

/// From the action sync to the acquire of the left eye's image.
proof fn lemma_poses(m: FrameModel, inputs: Seq<FrameInput>, failed: bool)
    requires
        state_after(m, inputs) == rendering(FrameStage::Syncing, failed),
    ensures
        ({
            let done = FrameInput::Completed;
            &&& state_after(m, inputs.push(done).push(done)) == rendering(
                FrameStage::Acquiring { eye: 0 },
                failed,
            )
            &&& calls_issued(m, inputs.push(done).push(done)) == calls_issued(m, inputs).push(
                FrameCall::LocateViews,
            ).push(FrameCall::AcquireImage { eye: 0 })
        }),
{
    let done = FrameInput::Completed;
    lemma_run_push(m, inputs, done);
    lemma_run_push(m, inputs.push(done), done);
}

/// One eye, from the acquire that is outstanding to what follows the
/// release: the acquire of the right eye's image after the left eye, the end
/// of the frame after the right.
proof fn lemma_eye(m: FrameModel, inputs: Seq<FrameInput>, eye: u32, draw: FrameInput, failed: bool)
    requires
        eye < crate::frame::EYES,
        state_after(m, inputs) == rendering(FrameStage::Acquiring { eye }, failed),
    ensures
        ({
            let done = FrameInput::Completed;
            let fed = inputs.push(done).push(done).push(draw).push(done);
            let drawn = calls_issued(m, inputs).push(FrameCall::WaitImage { eye }).push(
                FrameCall::Draw { eye },
            ).push(FrameCall::ReleaseImage { eye });
            let now_failed = failed || draw != FrameInput::Completed;
            &&& eye == 0 ==> state_after(m, fed) == rendering(
                FrameStage::Acquiring { eye: 1 },
                now_failed,
            ) && calls_issued(m, fed) == drawn.push(FrameCall::AcquireImage { eye: 1 })
            &&& eye == 1 ==> state_after(m, fed) == rendering(FrameStage::Ending, now_failed)
                && calls_issued(m, fed) == drawn.push(FrameCall::EndFrame { projection: true })
        }),
{
    let done = FrameInput::Completed;
    let i1 = inputs.push(done);
    let i2 = i1.push(done);
    let i3 = i2.push(draw);
    lemma_run_push(m, inputs, done);
    lemma_run_push(m, i1, done);
    lemma_run_push(m, i2, draw);
    lemma_run_push(m, i3, done);
}

/// The end of a rendered frame.
proof fn lemma_end(m: FrameModel, inputs: Seq<FrameInput>, failed: bool)
    requires
        state_after(m, inputs) == rendering(FrameStage::Ending, failed),
    ensures
        state_after(m, inputs.push(FrameInput::Completed)) == rendering(FrameStage::Idle, failed),
        calls_issued(m, inputs.push(FrameInput::Completed)) == calls_issued(m, inputs).push(
            FrameCall::Complete { rendered: true, draw_failed: failed },
        ),
{
    lemma_run_push(m, inputs, FrameInput::Completed);
}

/// A frame that is rendered makes its calls in the one order given by
/// `rendered_frame_calls`, whether the draws succeed or fail: the swapchains
/// are created only if they do not exist, each eye is drawn once, left then
/// right, and the frame ends with the projection layer. The frame reports a
/// failed draw exactly when one of the two draws did not succeed.
pub proof fn lemma_rendered_frame(m: FrameModel, left: FrameInput, right: FrameInput)
    requires
        m.stage == FrameStage::Idle,
    ensures
        ({
            let inputs = rendered_frame_inputs(!m.swapchains_ready, left, right);
            let draw_failed = left != FrameInput::Completed || right != FrameInput::Completed;
            &&& calls_issued(m, inputs) == rendered_frame_calls(!m.swapchains_ready, draw_failed)
            &&& state_after(m, inputs) == (FrameModel {
                stage: FrameStage::Idle,
                swapchains_ready: true,
                draw_failed,
            })
        }),
{
    let done = FrameInput::Completed;
    let i0 = opening_inputs(!m.swapchains_ready);
    lemma_opening(m);
    let i1 = i0.push(done).push(done);
    lemma_poses(m, i0, false);
    let i2 = i1.push(done).push(done).push(left).push(done);
    lemma_eye(m, i1, 0, left, false);
    let i3 = i2.push(done).push(done).push(right).push(done);
    lemma_eye(m, i2, 1, right, left != done);
    lemma_end(m, i3, left != done || right != done);
}

/// How the calls of one frame are answered: whether the runtime says to
/// render, and what the draw of each eye reports. Every other call succeeds.
pub struct FrameAnswers {
    pub should_render: bool,
    pub left_draw: FrameInput,
    pub right_draw: FrameInput,
}

/// The inputs of one frame while the session is running.
pub open spec fn frame_inputs(swapchains_ready: bool, answers: FrameAnswers) -> Seq<FrameInput> {
    if answers.should_render {
        rendered_frame_inputs(!swapchains_ready, answers.left_draw, answers.right_draw)
    } else {
        skipped_frame_inputs()
    }
}

/// The inputs of consecutive frames while the session is running.
pub open spec fn frames_inputs(m: FrameModel, frames: Seq<FrameAnswers>) -> Seq<FrameInput>
    decreases frames.len(),
{
    if frames.len() == 0 {
        Seq::empty()
    } else {
        let before = frames_inputs(m, frames.drop_last());
        before + frame_inputs(state_after(m, before).swapchains_ready, frames.last())
    }
}

/// How many of the frames are rendered.
pub open spec fn rendered_frames(frames: Seq<FrameAnswers>) -> nat
    decreases frames.len(),
{
    if frames.len() == 0 {
        0
    } else {
        rendered_frames(frames.drop_last()) + if frames.last().should_render {
            1nat
        } else {
            0nat
        }
    }
}

proof fn lemma_count_add(first: Seq<FrameCall>, rest: Seq<FrameCall>, wanted: FrameCall)
    ensures
        count(first + rest, wanted) == count(first, wanted) + count(rest, wanted),
    decreases rest.len(),
{
    if rest.len() == 0 {
        assert(first + rest =~= first);
    } else {
        lemma_count_add(first, rest.drop_last(), wanted);
        assert((first + rest).drop_last() =~= first + rest.drop_last());
        assert((first + rest).last() == rest.last());
    }
}

/// Appends a call and keeps count.
proof fn counted_push(calls: Seq<FrameCall>, call: FrameCall, wanted: FrameCall) -> (longer: Seq<
    FrameCall,
>)
    ensures
        longer == calls.push(call),
        count(longer, wanted) == count(calls, wanted) + if call == wanted {
            1nat
        } else {
            0nat
        },
{
    lemma_count_push(calls, call, wanted);
    calls.push(call)
}

/// A frame that is not rendered begins once and draws nothing.
proof fn lemma_count_skipped(wanted: FrameCall)
    ensures
        wanted == FrameCall::BeginFrame ==> count(skipped_frame_calls(), wanted) == 1,
        wanted is Draw ==> count(skipped_frame_calls(), wanted) == 0,
{
    let c = Seq::<FrameCall>::empty();
    let c = counted_push(c, FrameCall::WaitFrame, wanted);
    let c = counted_push(c, FrameCall::BeginFrame, wanted);
    let c = counted_push(c, FrameCall::EndFrame { projection: false }, wanted);
    let c = counted_push(c, FrameCall::Complete { rendered: false, draw_failed: false }, wanted);
}

/// A frame that is rendered begins once and draws each eye once.
proof fn lemma_count_rendered(create: bool, draw_failed: bool, wanted: FrameCall)
    ensures
        wanted == FrameCall::BeginFrame || wanted == (FrameCall::Draw { eye: 0 }) || wanted == (
            FrameCall::Draw { eye: 1 }
        ) ==> count(rendered_frame_calls(create, draw_failed), wanted) == 1,
{
    let c = Seq::<FrameCall>::empty();
    let c = counted_push(c, FrameCall::WaitFrame, wanted);
    let c = counted_push(c, FrameCall::BeginFrame, wanted);
    let c = if create {
        counted_push(c, FrameCall::CreateSwapchains, wanted)
    } else {
        c
    };
    let c = counted_push(c, FrameCall::SyncActions, wanted);
    let c = counted_push(c, FrameCall::LocateViews, wanted);
    let c = counted_push(c, FrameCall::AcquireImage { eye: 0 }, wanted);
    let c = counted_push(c, FrameCall::WaitImage { eye: 0 }, wanted);
    let c = counted_push(c, FrameCall::Draw { eye: 0 }, wanted);
    let c = counted_push(c, FrameCall::ReleaseImage { eye: 0 }, wanted);
    let c = counted_push(c, FrameCall::AcquireImage { eye: 1 }, wanted);
    let c = counted_push(c, FrameCall::WaitImage { eye: 1 }, wanted);
    let c = counted_push(c, FrameCall::Draw { eye: 1 }, wanted);
    let c = counted_push(c, FrameCall::ReleaseImage { eye: 1 }, wanted);
    let c = counted_push(c, FrameCall::EndFrame { projection: true }, wanted);
    let c = counted_push(c, FrameCall::Complete { rendered: true, draw_failed }, wanted);
}

/// Consecutive frames of a running session, whatever `should_render` says
/// from frame to frame and whatever the draws report. After every frame the
/// machine is between frames again. Each frame was begun once and ended once;
/// each rendered frame drew each eye once, between one acquire and one
/// release of that eye's image; and the swapchains were created at most once
/// over all the frames.
pub proof fn lemma_consecutive_frames(m: FrameModel, frames: Seq<FrameAnswers>, eye: u32)
    requires
        m.stage == FrameStage::Idle,
        eye < crate::frame::EYES,
    ensures
        ({
            let inputs = frames_inputs(m, frames);
            let calls = calls_issued(m, inputs);
            &&& state_after(m, inputs).stage == FrameStage::Idle
            &&& begins(calls) == frames.len()
            &&& ends(calls) == frames.len()
            &&& count(calls, FrameCall::AcquireImage { eye }) == rendered_frames(frames)
            &&& count(calls, FrameCall::Draw { eye }) == rendered_frames(frames)
            &&& count(calls, FrameCall::ReleaseImage { eye }) == rendered_frames(frames)
            &&& count(calls, FrameCall::CreateSwapchains) <= 1
        }),
    decreases frames.len(),
{
    let inputs = frames_inputs(m, frames);
    if frames.len() == 0 {
        assert(calls_issued(m, inputs) =~= Seq::<FrameCall>::empty());
    } else {
        let earlier = frames.drop_last();
        let answers = frames.last();
        lemma_consecutive_frames(m, earlier, eye);
        let before = frames_inputs(m, earlier);
        let rested = state_after(m, before);
        let frame = frame_inputs(rested.swapchains_ready, answers);
        lemma_run_split(m, before, frame);
        let frame_calls = calls_issued(rested, frame);
        lemma_count_add(calls_issued(m, before), frame_calls, FrameCall::BeginFrame);
        lemma_count_add(calls_issued(m, before), frame_calls, FrameCall::Draw { eye });
        if answers.should_render {
            lemma_rendered_frame(rested, answers.left_draw, answers.right_draw);
            let draw_failed = answers.left_draw != FrameInput::Completed || answers.right_draw
                != FrameInput::Completed;
            lemma_count_rendered(!rested.swapchains_ready, draw_failed, FrameCall::BeginFrame);
            lemma_count_rendered(!rested.swapchains_ready, draw_failed, FrameCall::Draw { eye });
        } else {
            lemma_skipped_frame(rested);
            lemma_count_skipped(FrameCall::BeginFrame);
            lemma_count_skipped(FrameCall::Draw { eye });
        }
        lemma_paired_inv(m, inputs);
        lemma_image_inv(m, inputs, eye);
        lemma_creation_inv(m, inputs);
    }
}

} // verus!
