//! The session manager: the lifecycle and the frame protocol, run against the
//! runtime.
//!
//! An [`OpenXR`] owns the session and everything that hangs on it. The render
//! loop calls [`OpenXR::process_events`] once per tick and
//! [`OpenXR::wait_frame`] once per redraw. Neither panics: a runtime call that
//! fails comes back as a fault.

use crate::fault::{DrawFault, FrameFault, RuntimeCall, RuntimeFault, StartupFault};
use crate::frame::{
    calls_left, check_view_count, close_frame, is_last_call, outcome_of_call, reachable,
    stage_call, step_model, FrameCall, FrameInput, FrameMachine, FrameModel, FrameOutcome,
    FrameStage, FrameState, EYES, REFRESH_QUANTUM_MILLIS,
};
use crate::frame_laws::{calls_issued, lemma_run_push, lemma_step_uses_up_calls, state_after};
use crate::lifecycle::{
    any_asks_exit, asks_exit, lemma_exit_split, lemma_react_then_settle, react_action, run,
    RuntimeEvent, SessionAction, SessionPhase,
};
use crate::runtime::{
    acquire_image, action_is_active, attach_action_set, blend_modes, create_action_set,
    create_action_space, create_instance, create_pose_action, create_reference_space,
    create_swapchain, frame_begin, frame_end_empty, frame_end_projection, frame_wait,
    graphics_requirements, image_waited, instance_system, locate_views, new_event_storage,
    opengl_loaded, opengl_supported, poll_event, release_image, result_code, runtime_rect,
    session_begin, session_end, space_locate, space_session, string_to_path, suggest_bindings,
    swapchain_formats, swapchain_images, sync_actions, view_configuration_views, wait_image,
    FrameStreamHandle, PoseAction, SwapchainHandle,
};
use crate::startup::{
    check_application_name, preferred_blend_mode, require_opengl,
    FORM_FACTOR_HEAD_MOUNTED_DISPLAY, MAX_APPLICATION_NAME_BYTES, PATH_NULL,
    REFERENCE_SPACE_STAGE, TIMEOUT_INFINITE, VIEW_CONFIGURATION_STEREO,
};
use crate::swapchain::{
    acquired_image, plan_outcome, plan_swapchains, Rect, SetupFault, SwapchainPlan, ViewConfig,
};
use crate::tracking::PoseUpdate;
use vstd::prelude::*;

verus! {

/// What one tick of event handling did.
pub struct TickReport {
    /// The events handled, in order.
    pub events: Vec<RuntimeEvent>,
    /// Whether an event asked the caller to leave its render loop.
    pub exit: bool,
    /// The call that stopped the tick, if one failed.
    pub fault: Option<RuntimeFault>,
}

/// Where an eye is drawn: the texture to bind as the colour target, and the
/// viewport.
#[derive(Clone, Copy, Debug, PartialEq, Eq, Structural)]
pub struct EyeTarget {
    pub eye: u32,
    /// The OpenGL name of the swapchain image.
    pub image: u32,
    pub rect: Rect,
}

/// The poses of the two hand controllers as of this frame.
pub struct HandPoses {
    pub left: PoseUpdate<openxr::Posef>,
    pub right: PoseUpdate<openxr::Posef>,
}

/// The draw callback. It is called once per eye and frame, between the
/// acquire and the release of the eye's image, and keeps nothing it is handed
/// beyond the call.
pub trait ViewRenderer {
    fn draw_view(
        &mut self,
        target: EyeTarget,
        view: &openxr::View,
        hands: &HandPoses,
        frame: &FrameState,
    ) -> Result<(), DrawFault>;
}

/// One eye's swapchain: the runtime's handle, the texture names of its
/// images, and its pixel rectangle.
pub struct Swapchain {
    handle: SwapchainHandle,
    rect: Rect,
    images: Vec<u32>,
    held: bool,
}

/// The action set with the pose actions of the two hands, their spaces, and
/// the stage space that everything is located in.
pub struct Interaction {
    action_set: openxr::ActionSet,
    right_action: PoseAction,
    left_action: PoseAction,
    right_space: openxr::Space,
    left_space: openxr::Space,
    stage: openxr::Space,
}

/// The connection to the runtime, before there is a session: the instance,
/// the system it runs the headset on, and the blend mode to present with.
pub struct Connection {
    instance: openxr::Instance,
    system: u64,
    environment_blend_mode: i32,
}

pub struct OpenXR {
    system: u64,
    instance: openxr::Instance,
    session: openxr::Session<openxr::OpenGL>,
    phase: SessionPhase,
    frame_wait: openxr::FrameWaiter,
    frame_stream: FrameStreamHandle,
    environment_blend_mode: i32,
    interaction: Interaction,
    event_storage: openxr::EventDataBuffer,
    swapchains: Vec<Swapchain>,
    machine: FrameMachine,
}

/// What a frame carries from one call to the next.
struct FrameContext {
    state: FrameState,
    views: Vec<openxr::View>,
    hands: HandPoses,
    image: u32,
    fault: Option<FrameFault>,
}

/// What a tick's report says of the phase it started in and the phase it
/// ended in.
pub open spec fn tick_outcome(
    before: SessionPhase,
    after: SessionPhase,
    report: TickReport,
) -> bool {
    let events = report.events@;
    &&& report.exit == any_asks_exit(events)
    &&& match report.fault {
        None => after == run(before, events),
        Some(fault) => match fault.call {
            RuntimeCall::BeginSession => {
                &&& events.len() > 0
                &&& react_action(run(before, events.drop_last()), events.last())
                    == SessionAction::Begin
                &&& after == SessionPhase::Ready
            },
            RuntimeCall::EndSession => {
                &&& events.len() > 0
                &&& react_action(run(before, events.drop_last()), events.last())
                    == SessionAction::End
                &&& after == SessionPhase::Stopping
            },
            _ => fault.call == RuntimeCall::PollEvent && after == run(before, events),
        },
    }
}

/// What a frame's result says of the machine it started with and the machine
/// it ended with: the machine was run from a tick through the answers of the
/// runtime up to the first call that closes a frame, and the result is that
/// call.
pub open spec fn frame_outcome(
    before: FrameModel,
    running: bool,
    after: FrameModel,
    out: Result<FrameOutcome, FrameFault>,
) -> bool {
    exists|answers: Seq<FrameInput>|
        {
            &&& answers.len() > 0
            &&& answers[0] == FrameInput::Tick { running }
            &&& after == #[trigger] state_after(before, answers)
            &&& closes_at_end(calls_issued(before, answers))
            &&& match out {
                Ok(outcome) => outcome_of_call(calls_issued(before, answers).last()) == Some(
                    outcome,
                ),
                Err(_) => calls_issued(before, answers).last() == FrameCall::Abort,
            }
        }
}

/// Whether the last call of a sequence closes a frame and no call before it
/// does.
pub open spec fn closes_at_end(calls: Seq<FrameCall>) -> bool {
    &&& calls.len() > 0
    &&& is_last_call(calls.last())
    &&& forall|i: int| 0 <= i < calls.len() - 1 ==> !is_last_call(#[trigger] calls[i])
}

/// Whether a stage works with the located views.
pub open spec fn needs_views(stage: FrameStage) -> bool {
    match stage {
        FrameStage::Acquiring { .. } => true,
        FrameStage::WaitingImage { .. } => true,
        FrameStage::Drawing { .. } => true,
        FrameStage::Releasing { .. } => true,
        FrameStage::Ending => true,
        _ => false,
    }
}

/// Whether the image of `eye` is held in a stage: acquired, waited for, and
/// not yet released.
pub open spec fn holds_image(stage: FrameStage, eye: int) -> bool {
    match stage {
        FrameStage::Drawing { eye: at } => at == eye,
        FrameStage::Releasing { eye: at } => at == eye,
        _ => false,
    }
}

/// The pixel rectangles of swapchains, in their order.
pub open spec fn rects_of(chains: Seq<Swapchain>) -> Seq<Rect> {
    chains.map_values(|chain: Swapchain| chain.pixel_rect())
}

/// Whether these are the pixel rectangles, eye by eye, of the set that is
/// planned from what the runtime recommends for the views and from the
/// formats it offers.
pub open spec fn planned_rects(
    rects: Seq<Rect>,
    views: Seq<ViewConfig>,
    formats: Seq<u32>,
) -> bool {
    plan_outcome(views, formats) matches Ok(plans) && rects == plans.map_values(
        |plan: SwapchainPlan| plan.rect,
    )
}

/// What an acquire comes to on a swapchain with these images: the texture
/// name of one of its images, or the fault of the runtime call, or the fault
/// of an index that the runtime handed out and the swapchain has no image
/// for.
pub open spec fn acquire_outcome(
    images: Seq<u32>,
    eye: u32,
    acquired: Result<u32, FrameFault>,
) -> bool {
    match acquired {
        Ok(image) => exists|index: int| 0 <= index < images.len() && images[index] == image,
        Err(FrameFault::Runtime(fault)) => fault.call == RuntimeCall::AcquireImage,
        Err(FrameFault::ImageIndex { eye: at, index }) => at == eye && index >= images.len(),
        Err(_) => false,
    }
}

impl Swapchain {
    /// The flag `held` says what the runtime's handle knows.
    pub closed spec fn wf(&self) -> bool {
        self.held == image_waited(&self.handle)
    }

    /// Whether an image is held: acquired, waited for, and not yet released.
    pub closed spec fn holds(&self) -> bool {
        self.held
    }

    /// The OpenGL texture names of the images.
    pub closed spec fn image_names(&self) -> Seq<u32> {
        self.images@
    }

    /// The pixel rectangle.
    pub closed spec fn pixel_rect(&self) -> Rect {
        self.rect
    }

    /// The pixel rectangle.
    pub fn rect(&self) -> (rect: Rect)
        ensures
            rect == self.pixel_rect(),
    {
        self.rect
    }

    /// The OpenGL texture names of the images.
    pub fn images(&self) -> (images: &Vec<u32>)
        ensures
            images@ == self.image_names(),
    {
        &self.images
    }

    /// Creates the swapchain of a plan and lists its images.
    fn create(session: &openxr::Session<openxr::OpenGL>, plan: &SwapchainPlan) -> (made: Result<
        Swapchain,
        RuntimeFault,
    >)
        ensures
            made matches Ok(chain) ==> chain.wf() && !chain.holds() && chain.pixel_rect()
                == plan.rect,
            made matches Err(fault) ==> fault.call == RuntimeCall::CreateSwapchain || fault.call
                == RuntimeCall::SwapchainImages,
    {
        let handle = match create_swapchain(session, &plan.request) {
            Ok(handle) => handle,
            Err(code) => {
                return Err(call_fault(RuntimeCall::CreateSwapchain, code));
            },
        };
        let images = match swapchain_images(&handle) {
            Ok(images) => images,
            Err(code) => {
                return Err(call_fault(RuntimeCall::SwapchainImages, code));
            },
        };
        Ok(Swapchain { handle, rect: plan.rect, images, held: false })
    }

    /// Acquires the next image and looks up its texture name.
    fn acquire(&mut self, eye: u32) -> (acquired: Result<u32, FrameFault>)
        requires
            old(self).wf(),
        ensures
            final(self).wf(),
            final(self).holds() == old(self).holds(),
            final(self).pixel_rect() == old(self).pixel_rect(),
            final(self).image_names() == old(self).image_names(),
            acquire_outcome(old(self).image_names(), eye, acquired),
    {
        let index = match acquire_image(&mut self.handle) {
            Ok(index) => index,
            Err(code) => {
                return Err(frame_fault(RuntimeCall::AcquireImage, code));
            },
        };
        acquired_image(&self.images, eye, index)
    }

    /// Waits, without a timeout, until the acquired image can be written.
    fn wait(&mut self) -> (waited: Result<(), FrameFault>)
        requires
            old(self).wf(),
            !old(self).holds(),
        ensures
            final(self).wf(),
            final(self).holds() == (waited is Ok),
            final(self).pixel_rect() == old(self).pixel_rect(),
            final(self).image_names() == old(self).image_names(),
            waited matches Err(fault) ==> fault matches FrameFault::Runtime(inner) && inner.call
                == RuntimeCall::WaitImage,
    {
        match wait_image(&mut self.handle, TIMEOUT_INFINITE) {
            Ok(_) => {
                self.held = true;
                Ok(())
            },
            Err(code) => Err(frame_fault(RuntimeCall::WaitImage, code)),
        }
    }

    /// Hands the image back to the runtime.
    fn release(&mut self) -> (released: Result<(), FrameFault>)
        requires
            old(self).wf(),
            old(self).holds(),
        ensures
            final(self).wf(),
            final(self).holds() == (released is Err),
            final(self).pixel_rect() == old(self).pixel_rect(),
            final(self).image_names() == old(self).image_names(),
            released matches Err(fault) ==> fault matches FrameFault::Runtime(inner) && inner.call
                == RuntimeCall::ReleaseImage,
    {
        match release_image(&mut self.handle) {
            Ok(_) => {
                self.held = false;
                Ok(())
            },
            Err(code) => Err(frame_fault(RuntimeCall::ReleaseImage, code)),
        }
    }
}

impl Interaction {
    /// All three spaces are the session's.
    pub closed spec fn wf(&self) -> bool {
        &&& space_session(&self.left_space) == space_session(&self.stage)
        &&& space_session(&self.right_space) == space_session(&self.stage)
    }

    /// Creates the actions and the spaces on a session.
    fn new(instance: &openxr::Instance, session: &openxr::Session<openxr::OpenGL>) -> (made: Result<
        Interaction,
        RuntimeFault,
    >)
        ensures
            made matches Ok(interaction) ==> interaction.wf(),
            made matches Err(fault) ==> fault.call == RuntimeCall::CreateActionSet || fault.call
                == RuntimeCall::CreateAction || fault.call == RuntimeCall::StringToPath
                || fault.call == RuntimeCall::SuggestBindings || fault.call
                == RuntimeCall::AttachActionSet || fault.call == RuntimeCall::CreateSpace,
    {
        proof {
            reveal_strlit("input");
            reveal_strlit("input pose information");
            reveal_strlit("right_hand");
            reveal_strlit("Right Hand Controller");
            reveal_strlit("left_hand");
            reveal_strlit("Left Hand Controller");
            vstd::string::is_ascii_spec_bytes("input");
            vstd::string::is_ascii_spec_bytes("input pose information");
            vstd::string::is_ascii_spec_bytes("right_hand");
            vstd::string::is_ascii_spec_bytes("Right Hand Controller");
            vstd::string::is_ascii_spec_bytes("left_hand");
            vstd::string::is_ascii_spec_bytes("Left Hand Controller");
        }
        let action_set = match create_action_set(instance, "input", "input pose information", 0) {
            Ok(set) => set,
            Err(code) => {
                return Err(call_fault(RuntimeCall::CreateActionSet, code));
            },
        };
        let right_action = match create_pose_action(
            &action_set,
            "right_hand",
            "Right Hand Controller",
        ) {
            Ok(action) => action,
            Err(code) => {
                return Err(call_fault(RuntimeCall::CreateAction, code));
            },
        };
        let left_action = match create_pose_action(
            &action_set,
            "left_hand",
            "Left Hand Controller",
        ) {
            Ok(action) => action,
            Err(code) => {
                return Err(call_fault(RuntimeCall::CreateAction, code));
            },
        };
        let profile = match string_to_path(
            instance,
            "/interaction_profiles/khr/simple_controller",
        ) {
            Ok(path) => path,
            Err(code) => {
                return Err(call_fault(RuntimeCall::StringToPath, code));
            },
        };
        let right_grip = match string_to_path(instance, "/user/hand/right/input/grip/pose") {
            Ok(path) => path,
            Err(code) => {
                return Err(call_fault(RuntimeCall::StringToPath, code));
            },
        };
        let left_grip = match string_to_path(instance, "/user/hand/left/input/grip/pose") {
            Ok(path) => path,
            Err(code) => {
                return Err(call_fault(RuntimeCall::StringToPath, code));
            },
        };
        match suggest_bindings(
            instance,
            profile,
            (&right_action, right_grip),
            (&left_action, left_grip),
        ) {
            Ok(_) => {},
            Err(code) => {
                return Err(call_fault(RuntimeCall::SuggestBindings, code));
            },
        }
        match attach_action_set(session, &action_set) {
            Ok(_) => {},
            Err(code) => {
                return Err(call_fault(RuntimeCall::AttachActionSet, code));
            },
        }
        let right_space = match create_action_space(&right_action, session, PATH_NULL) {
            Ok(space) => space,
            Err(code) => {
                return Err(call_fault(RuntimeCall::CreateSpace, code));
            },
        };
        let left_space = match create_action_space(&left_action, session, PATH_NULL) {
            Ok(space) => space,
            Err(code) => {
                return Err(call_fault(RuntimeCall::CreateSpace, code));
            },
        };
        let stage = match create_reference_space(session, REFERENCE_SPACE_STAGE) {
            Ok(space) => space,
            Err(code) => {
                return Err(call_fault(RuntimeCall::CreateSpace, code));
            },
        };
        Ok(Interaction { action_set, right_action, left_action, right_space, left_space, stage })
    }

    /// Queries the poses of both hands in the stage space at `time`. The
    /// action set must have been synced for the frame.
    fn locate_hands(&self, session: &openxr::Session<openxr::OpenGL>, time: i64) -> (hands: Result<
        HandPoses,
        RuntimeFault,
    >)
        requires
            self.wf(),
        ensures
            hands matches Err(fault) ==> fault.call == RuntimeCall::LocateSpace || fault.call
                == RuntimeCall::ActionState,
    {
        let left = match space_locate(&self.left_space, &self.stage, time) {
            Ok(pose) => pose,
            Err(code) => {
                return Err(call_fault(RuntimeCall::LocateSpace, code));
            },
        };
        let left_active = match action_is_active(&self.left_action, session, PATH_NULL) {
            Ok(active) => active,
            Err(code) => {
                return Err(call_fault(RuntimeCall::ActionState, code));
            },
        };
        let right = match space_locate(&self.right_space, &self.stage, time) {
            Ok(pose) => pose,
            Err(code) => {
                return Err(call_fault(RuntimeCall::LocateSpace, code));
            },
        };
        let right_active = match action_is_active(&self.right_action, session, PATH_NULL) {
            Ok(active) => active,
            Err(code) => {
                return Err(call_fault(RuntimeCall::ActionState, code));
            },
        };
        Ok(
            HandPoses {
                left: PoseUpdate::from_query(left_active, left),
                right: PoseUpdate::from_query(right_active, right),
            },
        )
    }
}

impl Connection {
    /// The number of the system.
    pub closed spec fn system_id(&self) -> u64 {
        self.system
    }

    /// The number of the environment blend mode.
    pub closed spec fn blend_mode(&self) -> i32 {
        self.environment_blend_mode
    }

    /// The instance, to create the session with.
    pub fn instance(&self) -> (instance: &openxr::Instance)
        ensures
            opengl_loaded(instance),
    {
        proof {
            use_type_invariant(self);
        }
        &self.instance
    }

    /// The number of the system, to create the session with.
    pub fn system(&self) -> (system: u64)
        ensures
            system == self.system_id(),
    {
        self.system
    }

    /// The number of the environment blend mode that frames are presented
    /// with: the one the runtime prefers.
    pub fn environment_blend_mode(&self) -> (mode: i32)
        ensures
            mode == self.blend_mode(),
    {
        self.environment_blend_mode
    }

    #[verifier::type_invariant]
    spec fn inv(self) -> bool {
        opengl_loaded(&self.instance)
    }
}

impl OpenXR {
    /// Connects to the runtime: checks that it supports the OpenGL graphics
    /// extension, creates the instance with that extension enabled, picks the
    /// head-mounted display and the blend mode that the runtime prefers for
    /// stereo, and asks for the graphics requirements, as the runtime wants
    /// before a session is created.
    pub fn connect(entry: &openxr::Entry, application_name: &str) -> (connection: Result<
        Connection,
        StartupFault,
    >)
        ensures
            connection is Ok ==> application_name.len() <= MAX_APPLICATION_NAME_BYTES,
            connection matches Err(StartupFault::NameTooLong) ==> application_name.len()
                > MAX_APPLICATION_NAME_BYTES,
            connection matches Err(StartupFault::Runtime(fault)) ==> fault.call
                == RuntimeCall::EnumerateExtensions || fault.call == RuntimeCall::CreateInstance
                || fault.call == RuntimeCall::GetSystem || fault.call == RuntimeCall::BlendModes
                || fault.call == RuntimeCall::GraphicsRequirements,
    {
        let supported = match opengl_supported(entry) {
            Ok(supported) => supported,
            Err(code) => {
                return Err(startup_fault(RuntimeCall::EnumerateExtensions, code));
            },
        };
        match require_opengl(supported) {
            Ok(_) => {},
            Err(fault) => {
                return Err(fault);
            },
        }
        match check_application_name(application_name) {
            Ok(_) => {},
            Err(fault) => {
                return Err(fault);
            },
        }
        let instance = match create_instance(entry, application_name, true) {
            Ok(instance) => instance,
            Err(code) => {
                return Err(startup_fault(RuntimeCall::CreateInstance, code));
            },
        };
        let system = match instance_system(&instance, FORM_FACTOR_HEAD_MOUNTED_DISPLAY) {
            Ok(system) => system,
            Err(code) => {
                return Err(startup_fault(RuntimeCall::GetSystem, code));
            },
        };
        let modes = match blend_modes(&instance, system, VIEW_CONFIGURATION_STEREO) {
            Ok(modes) => modes,
            Err(code) => {
                return Err(startup_fault(RuntimeCall::BlendModes, code));
            },
        };
        let environment_blend_mode = match preferred_blend_mode(&modes) {
            Ok(mode) => mode,
            Err(fault) => {
                return Err(fault);
            },
        };
        match graphics_requirements(&instance, system) {
            Ok(_) => {},
            Err(code) => {
                return Err(startup_fault(RuntimeCall::GraphicsRequirements, code));
            },
        }
        Ok(Connection { instance, system, environment_blend_mode })
    }

    /// Sets the manager up on a session that was created from `connection`:
    /// creates the action set with the pose actions of the two hands,
    /// suggests their bindings for the simple controller, attaches the set,
    /// and creates the spaces of the hands and the stage space. The session
    /// starts out idle, with no swapchains.
    pub fn new(
        connection: Connection,
        session: openxr::Session<openxr::OpenGL>,
        frame_wait: openxr::FrameWaiter,
        frame_stream: FrameStreamHandle,
    ) -> (made: Result<OpenXR, StartupFault>)
        ensures
            made matches Ok(manager) ==> {
                &&& manager.wf()
                &&& manager.phase_model() == SessionPhase::Idle
                &&& manager.frame_model() == (FrameModel {
                    stage: FrameStage::Idle,
                    swapchains_ready: false,
                    draw_failed: false,
                })
                &&& manager.swapchain_rects().len() == 0
            },
            made matches Err(fault) ==> fault matches StartupFault::Runtime(inner) && (inner.call
                == RuntimeCall::CreateActionSet || inner.call == RuntimeCall::CreateAction
                || inner.call == RuntimeCall::StringToPath || inner.call
                == RuntimeCall::SuggestBindings || inner.call == RuntimeCall::AttachActionSet
                || inner.call == RuntimeCall::CreateSpace),
    {
        let interaction = match Interaction::new(&connection.instance, &session) {
            Ok(interaction) => interaction,
            Err(fault) => {
                return Err(StartupFault::Runtime(fault));
            },
        };
        Ok(
            OpenXR {
                system: connection.system,
                instance: connection.instance,
                session,
                phase: SessionPhase::Idle,
                frame_wait,
                frame_stream,
                environment_blend_mode: connection.environment_blend_mode,
                interaction,
                event_storage: new_event_storage(),
                swapchains: Vec::new(),
                machine: FrameMachine::new(),
            },
        )
    }

    /// The phase of the session.
    pub closed spec fn phase_model(&self) -> SessionPhase {
        self.phase
    }

    /// The frame machine.
    pub closed spec fn frame_model(&self) -> FrameModel {
        self.machine@
    }

    /// The pixel rectangles of the swapchains, in the order of the eyes.
    pub closed spec fn swapchain_rects(&self) -> Seq<Rect> {
        self.swapchains@.map_values(|chain: Swapchain| chain.rect)
    }

    /// What holds while a frame is under way, with `views` views located.
    closed spec fn live(&self, views: nat) -> bool {
        let stage = self.machine@.stage;
        &&& reachable(self.machine@)
        &&& self.interaction.wf()
        &&& self.machine@.swapchains_ready ==> self.swapchains@.len() == EYES
        &&& needs_views(stage) ==> views == EYES
        &&& forall|i: int| 0 <= i < self.swapchains@.len() ==> (#[trigger] self.swapchains@[i]).wf()
        &&& stage != FrameStage::Failed ==> forall|i: int|
            0 <= i < self.swapchains@.len() ==> (#[trigger] self.swapchains@[i]).holds()
                == holds_image(stage, i)
    }

    /// What holds between calls: no frame is under way, the swapchains are
    /// there once the machine says so, and no image is held unless a frame
    /// was given up.
    pub closed spec fn wf(&self) -> bool {
        &&& self.live(0)
        &&& stage_call(self.machine@.stage) is None
    }

    /// The phase of the session.
    pub fn phase(&self) -> (phase: SessionPhase)
        ensures
            phase == self.phase_model(),
    {
        self.phase
    }

    /// The swapchains, one per eye once they were created, none before.
    pub fn swapchains(&self) -> (chains: &Vec<Swapchain>)
        ensures
            chains@.map_values(|chain: Swapchain| chain.pixel_rect()) == self.swapchain_rects(),
    {
        &self.swapchains
    }

    /// Takes the events that are queued off the runtime until none is left,
    /// and handles each in turn: the session is begun when the runtime is
    /// ready and ended when it asks to stop. Never blocks. A runtime call
    /// that fails stops the tick.
    pub fn process_events(&mut self) -> (report: TickReport)
        ensures
            tick_outcome(old(self).phase_model(), final(self).phase_model(), report),
            final(self).frame_model() == old(self).frame_model(),
            old(self).wf() ==> final(self).wf(),
    {
        let ghost before = self.phase;
        let mut events: Vec<RuntimeEvent> = Vec::new();
        let mut exit = false;
        while events.len() < usize::MAX
            invariant
                before == old(self).phase_model(),
                self.machine == old(self).machine,
                self.swapchains == old(self).swapchains,
                self.interaction == old(self).interaction,
                self.phase == run(before, events@),
                exit == any_asks_exit(events@),
            decreases usize::MAX - events@.len(),
        {
            let raw = match poll_event(&self.instance, &mut self.event_storage) {
                Ok(Some(raw)) => raw,
                Ok(None) => {
                    return TickReport { events, exit, fault: None };
                },
                Err(code) => {
                    let fault = call_fault(RuntimeCall::PollEvent, code);
                    return TickReport { events, exit, fault: Some(fault) };
                },
            };
            let event = RuntimeEvent::from_raw(raw);
            let ghost handled = events@;
            let (announced, action) = self.phase.react(event);
            events.push(event);
            if event.asks_exit() {
                exit = true;
            }
            proof {
                assert(events@.drop_last() =~= handled);
                lemma_exit_split(handled, seq![event]);
                assert(handled + seq![event] =~= events@);
                assert(any_asks_exit(seq![event]) == asks_exit(event)) by {
                    if asks_exit(event) {
                        assert(asks_exit(seq![event][0]));
                    }
                }
                lemma_react_then_settle(run(before, handled), event);
            }
            self.phase = announced;
            let outcome = match action {
                SessionAction::Begin => match session_begin(
                    &self.session,
                    VIEW_CONFIGURATION_STEREO,
                ) {
                    Ok(_) => None,
                    Err(code) => Some(call_fault(RuntimeCall::BeginSession, code)),
                },
                SessionAction::End => match session_end(&self.session) {
                    Ok(_) => None,
                    Err(code) => Some(call_fault(RuntimeCall::EndSession, code)),
                },
                _ => None,
            };
            match outcome {
                Some(fault) => {
                    return TickReport { events, exit, fault: Some(fault) };
                },
                None => {
                    self.phase = announced.settle(action, true);
                },
            }
        }
        TickReport { events, exit, fault: None }
    }

    /// Creates the swapchain set: asks the runtime what it recommends for
    /// each view and which formats it offers, plans one swapchain per eye,
    /// and creates them in the order of the views.
    fn create_swapchains(&self) -> (made: Result<Vec<Swapchain>, FrameFault>)
        ensures
            made matches Ok(chains) ==> {
                &&& chains@.len() == EYES
                &&& forall|i: int|
                    0 <= i < chains@.len() ==> (#[trigger] chains@[i]).wf() && !chains@[i].holds()
                &&& exists|views: Seq<ViewConfig>, formats: Seq<u32>|
                    #[trigger] planned_rects(rects_of(chains@), views, formats)
            },
            made matches Err(fault) ==> match fault {
                FrameFault::Runtime(inner) => inner.call == RuntimeCall::ViewConfigurationViews
                    || inner.call == RuntimeCall::SwapchainFormats || inner.call
                    == RuntimeCall::CreateSwapchain || inner.call == RuntimeCall::SwapchainImages,
                FrameFault::Setup(inner) => exists|views: Seq<ViewConfig>, formats: Seq<u32>|
                    #[trigger] plan_outcome(views, formats) == Err::<
                        Seq<SwapchainPlan>,
                        SetupFault,
                    >(inner),
                _ => false,
            },
    {
        let views = match view_configuration_views(
            &self.instance,
            self.system,
            VIEW_CONFIGURATION_STEREO,
        ) {
            Ok(views) => views,
            Err(code) => {
                return Err(frame_fault(RuntimeCall::ViewConfigurationViews, code));
            },
        };
        let formats = match swapchain_formats(&self.session) {
            Ok(formats) => formats,
            Err(code) => {
                return Err(frame_fault(RuntimeCall::SwapchainFormats, code));
            },
        };
        let plans = match plan_swapchains(&views, &formats) {
            Ok(plans) => plans,
            Err(fault) => {
                return Err(FrameFault::Setup(fault));
            },
        };
        let mut chains: Vec<Swapchain> = Vec::new();
        let mut i: usize = 0;
        while i < plans.len()
            invariant
                i <= plans@.len(),
                plans@.len() == EYES,
                chains@.len() == i,
                forall|j: int|
                    0 <= j < chains@.len() ==> (#[trigger] chains@[j]).wf() && !chains@[j].holds(),
                forall|j: int|
                    0 <= j < chains@.len() ==> (#[trigger] chains@[j]).pixel_rect()
                        == plans@[j].rect,
            decreases plans@.len() - i,
        {
            match Swapchain::create(&self.session, &plans[i]) {
                Ok(chain) => {
                    chains.push(chain);
                },
                Err(fault) => {
                    return Err(FrameFault::Runtime(fault));
                },
            }
            i += 1;
        }
        proof {
            assert(rects_of(chains@) =~= plans@.map_values(|plan: SwapchainPlan| plan.rect));
            assert(planned_rects(rects_of(chains@), views@, formats@));
        }
        Ok(chains)
    }

    /// Makes the call that the machine asks for, hands the machine the
    /// answer, and returns the answer with the call that comes next.
    fn perform<R: ViewRenderer>(
        &mut self,
        call: FrameCall,
        context: &mut FrameContext,
        renderer: &mut R,
    ) -> (answer: (FrameInput, FrameCall))
        requires
            old(self).live(old(context).views@.len()),
            stage_call(old(self).machine@.stage) == Some(call),
        ensures
            final(self).live(final(context).views@.len()),
            final(self).phase == old(self).phase,
            call != FrameCall::CreateSwapchains ==> final(self).swapchain_rects() == old(
                self,
            ).swapchain_rects(),
            (final(self).machine@, answer.1) == step_model(old(self).machine@, answer.0),
            match stage_call(final(self).machine@.stage) {
                Some(outstanding) => answer.1 == outstanding,
                None => is_last_call(answer.1),
            },
    {
        let time = context.state.predicted_display_time;
        let done: Result<(), FrameFault> = match call {
            FrameCall::WaitFrame => match frame_wait(&mut self.frame_wait) {
                Ok(state) => {
                    context.state = state;
                    let next = self.machine.step(
                        FrameInput::FrameReady { should_render: state.should_render },
                    );
                    return (FrameInput::FrameReady { should_render: state.should_render }, next);
                },
                Err(code) => Err(frame_fault(RuntimeCall::WaitFrame, code)),
            },
            FrameCall::BeginFrame => match frame_begin(&mut self.frame_stream) {
                Ok(_) => Ok(()),
                Err(code) => Err(frame_fault(RuntimeCall::BeginFrame, code)),
            },
            FrameCall::CreateSwapchains => match self.create_swapchains() {
                Ok(chains) => {
                    self.swapchains = chains;
                    Ok(())
                },
                Err(fault) => Err(fault),
            },
            FrameCall::SyncActions => match sync_actions(
                &self.session,
                &self.interaction.action_set,
            ) {
                Ok(_) => Ok(()),
                Err(code) => Err(frame_fault(RuntimeCall::SyncActions, code)),
            },
            FrameCall::LocateViews => match self.locate(time) {
                Ok((views, hands)) => {
                    context.views = views;
                    context.hands = hands;
                    Ok(())
                },
                Err(fault) => Err(fault),
            },
            FrameCall::AcquireImage { eye } => match self.swapchains[eye as usize].acquire(eye) {
                Ok(image) => {
                    context.image = image;
                    Ok(())
                },
                Err(fault) => Err(fault),
            },
            FrameCall::WaitImage { eye } => self.swapchains[eye as usize].wait(),
            FrameCall::Draw { eye } => {
                let target = EyeTarget {
                    eye,
                    image: context.image,
                    rect: self.swapchains[eye as usize].rect,
                };
                let view = &context.views[eye as usize];
                match renderer.draw_view(target, view, &context.hands, &context.state) {
                    Ok(_) => Ok(()),
                    Err(_) => {
                        let next = self.machine.step(FrameInput::Failed);
                        return (FrameInput::Failed, next);
                    },
                }
            },
            FrameCall::ReleaseImage { eye } => self.swapchains[eye as usize].release(),
            FrameCall::EndFrame { projection } => {
                let ended = if projection {
                    frame_end_projection(
                        &mut self.frame_stream,
                        time,
                        self.environment_blend_mode,
                        &self.interaction.stage,
                        (
                            &context.views[0],
                            &self.swapchains[0].handle,
                            runtime_rect(self.swapchains[0].rect),
                        ),
                        (
                            &context.views[1],
                            &self.swapchains[1].handle,
                            runtime_rect(self.swapchains[1].rect),
                        ),
                    )
                } else {
                    frame_end_empty(&mut self.frame_stream, time, self.environment_blend_mode)
                };
                match ended {
                    Ok(_) => Ok(()),
                    Err(code) => Err(frame_fault(RuntimeCall::EndFrame, code)),
                }
            },
            _ => {
                // A call that closes a frame is outstanding in no stage.
                assert(false);
                Ok(())
            },
        };
        let input = match done {
            Ok(_) => FrameInput::Completed,
            Err(fault) => {
                context.fault = Some(fault);
                FrameInput::Failed
            },
        };
        let next = self.machine.step(input);
        (input, next)
    }

    /// Locates the views of both eyes and the poses of both hands at `time`.
    fn locate(&self, time: i64) -> (located: Result<(Vec<openxr::View>, HandPoses), FrameFault>)
        requires
            self.interaction.wf(),
        ensures
            located matches Ok(found) ==> found.0@.len() == EYES,
            located matches Err(fault) ==> match fault {
                FrameFault::Runtime(inner) => inner.call == RuntimeCall::LocateViews || inner.call
                    == RuntimeCall::LocateSpace || inner.call == RuntimeCall::ActionState,
                FrameFault::ViewCount { found } => found != EYES,
                _ => false,
            },
    {
        let views = match locate_views(
            &self.session,
            VIEW_CONFIGURATION_STEREO,
            time,
            &self.interaction.stage,
        ) {
            Ok(views) => views,
            Err(code) => {
                return Err(frame_fault(RuntimeCall::LocateViews, code));
            },
        };
        match check_view_count(views.len()) {
            Ok(_) => {},
            Err(fault) => {
                return Err(fault);
            },
        }
        match self.interaction.locate_hands(&self.session, time) {
            Ok(hands) => Ok((views, hands)),
            Err(fault) => Err(FrameFault::Runtime(fault)),
        }
    }

    /// Drives one frame. While the session is not running this asks nothing
    /// of the runtime and tells the caller how long to sleep. Otherwise it
    /// waits for the runtime, begins the frame, and either ends it with no
    /// layer, when the runtime says not to render, or creates the swapchains
    /// if they do not exist, syncs the actions, locates views and hands,
    /// draws each eye between the acquire and the release of its image, and
    /// ends the frame with the projection layer of both eyes. A draw that
    /// fails does not stop the frame. A runtime call that fails does, and no
    /// frame is driven after it.
    pub fn wait_frame<R: ViewRenderer>(&mut self, renderer: &mut R) -> (out: Result<
        FrameOutcome,
        FrameFault,
    >)
        requires
            old(self).wf(),
        ensures
            final(self).wf(),
            final(self).phase_model() == old(self).phase_model(),
            frame_outcome(
                old(self).frame_model(),
                old(self).phase_model() == SessionPhase::Running,
                final(self).frame_model(),
                out,
            ),
            old(self).phase_model() != SessionPhase::Running && old(self).frame_model().stage
                == FrameStage::Idle ==> {
                &&& out == Ok::<FrameOutcome, FrameFault>(
                    FrameOutcome::NotRunning { sleep_millis: REFRESH_QUANTUM_MILLIS },
                )
                &&& final(self).frame_model() == old(self).frame_model()
            },
            out is Ok ==> final(self).frame_model().stage == FrameStage::Idle,
            out is Err ==> final(self).frame_model().stage == FrameStage::Failed,
            old(self).frame_model().swapchains_ready ==> final(self).swapchain_rects() == old(
                self,
            ).swapchain_rects(),
            final(self).frame_model().swapchains_ready ==> final(self).swapchain_rects().len()
                == EYES,
    {
        let ghost before = self.machine@;
        let tick = FrameInput::Tick { running: self.phase.is_running() };
        let mut call = self.machine.step(tick);
        let ghost mut answers = Seq::<FrameInput>::empty().push(tick);
        proof {
            lemma_run_push(before, Seq::<FrameInput>::empty(), tick);
        }
        let mut context = FrameContext {
            state: FrameState {
                predicted_display_time: 0,
                predicted_display_period: 0,
                should_render: false,
            },
            views: Vec::new(),
            hands: HandPoses { left: PoseUpdate::NoUpdate, right: PoseUpdate::NoUpdate },
            image: 0,
            fault: None,
        };
        while !call.is_last()
            invariant
                self.live(context.views@.len()),
                self.phase == old(self).phase,
                match stage_call(self.machine@.stage) {
                    Some(outstanding) => call == outstanding,
                    None => is_last_call(call),
                },
                answers.len() > 0,
                answers[0] == tick,
                self.machine@ == state_after(before, answers),
                calls_issued(before, answers).len() == answers.len(),
                call == calls_issued(before, answers).last(),
                forall|i: int|
                    0 <= i < answers.len() - 1 ==> !is_last_call(
                        #[trigger] calls_issued(before, answers)[i],
                    ),
                is_last_call(step_model(before, tick).1) ==> answers.len() == 1,
                answers.len() == 1 ==> self.machine@ == step_model(before, tick).0 && call
                    == step_model(before, tick).1,
                (call == FrameCall::Abort) == (self.machine@.stage == FrameStage::Failed),
                before.swapchains_ready ==> self.machine@.swapchains_ready
                    && self.swapchain_rects() == old(self).swapchain_rects(),
            decreases calls_left(self.machine@.stage),
        {
            let ghost stage = self.machine@;
            let ghost calls = calls_issued(before, answers);
            let (input, next) = self.perform(call, &mut context, renderer);
            proof {
                lemma_run_push(before, answers, input);
                lemma_step_uses_up_calls(stage, input);
                answers = answers.push(input);
                assert(calls_issued(before, answers) == calls.push(next));
                assert forall|i: int| 0 <= i < answers.len() - 1 implies !is_last_call(
                    #[trigger] calls_issued(before, answers)[i],
                ) by {
                    if i < calls.len() - 1 {
                        assert(calls_issued(before, answers)[i] == calls[i]);
                    }
                }
            }
            call = next;
        }
        close_frame(call, context.fault)
    }
}

/// The fault of a runtime call that failed with a result code.
fn call_fault(call: RuntimeCall, code: openxr::sys::Result) -> (fault: RuntimeFault)
    ensures
        fault.call == call,
{
    RuntimeFault { call, code: result_code(code) }
}

/// The fault of a runtime call that failed while connecting.
fn startup_fault(call: RuntimeCall, code: openxr::sys::Result) -> (fault: StartupFault)
    ensures
        fault matches StartupFault::Runtime(inner) && inner.call == call,
{
    StartupFault::Runtime(RuntimeFault { call, code: result_code(code) })
}

/// The fault of a runtime call that failed while a frame was driven.
fn frame_fault(call: RuntimeCall, code: openxr::sys::Result) -> (fault: FrameFault)
    ensures
        fault matches FrameFault::Runtime(inner) && inner.call == call,
{
    FrameFault::Runtime(RuntimeFault { call, code: result_code(code) })
}

} // verus!
