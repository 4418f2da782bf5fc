//! The runtime, as far as this library calls it.
//!
//! Everything here is taken on trust: the types are the runtime binding's
//! own, opaque to the verifier, and each function makes one call into the
//! binding. What a contract states was read off the binding's source; what
//! the runtime answers is never promised.
//!
//! Three of the binding's types take the graphics binding as a parameter
//! that is bound by a trait of the binding. The verifier cannot be told of
//! such a type, so each is held in a struct of this library: the
//! [`FrameStreamHandle`], the [`SwapchainHandle`] and the [`PoseAction`].

use crate::frame::FrameState;
use crate::lifecycle::RawEvent;
use crate::swapchain::{Rect, SwapchainRequest, ViewConfig};
use openxr::{CompositionLayerProjection, CompositionLayerProjectionView, SwapchainSubImage};
use vstd::prelude::*;

verus! {

/// `openxr::Instance`: the connection to the runtime.
#[verifier::external_type_specification]
#[verifier::external_body]
pub struct ExInstance(openxr::Instance);

/// `openxr::OpenGL`: the marker of the graphics binding.
#[verifier::external_type_specification]
#[verifier::external_body]
pub struct ExOpenGL(openxr::OpenGL);

/// `openxr::Session`: the session handle.
#[verifier::external_type_specification]
#[verifier::external_body]
#[verifier::reject_recursive_types(G)]
pub struct ExSession<G>(openxr::Session<G>);

/// `openxr::EventDataBuffer`: the storage an event is polled into.
#[verifier::external_type_specification]
#[verifier::external_body]
pub struct ExEventDataBuffer(openxr::EventDataBuffer);

/// `openxr::sys::Result`: the result code of a runtime call.
#[verifier::external_type_specification]
#[verifier::external_body]
pub struct ExResultCode(openxr::sys::Result);

/// `openxr::Entry`: the way into the runtime's loader.
#[verifier::external_type_specification]
#[verifier::external_body]
pub struct ExEntry(openxr::Entry);

/// `openxr::FrameWaiter`: the handle that waits for the next frame.
#[verifier::external_type_specification]
#[verifier::external_body]
pub struct ExFrameWaiter(openxr::FrameWaiter);

/// `openxr::Space`: a reference space or an action space.
#[verifier::external_type_specification]
#[verifier::external_body]
pub struct ExSpace(openxr::Space);

/// `openxr::ActionSet`: a set of input actions.
#[verifier::external_type_specification]
#[verifier::external_body]
pub struct ExActionSet(openxr::ActionSet);

/// `openxr::View`: the pose and the field of view of one eye.
#[verifier::external_type_specification]
#[verifier::external_body]
pub struct ExView(openxr::View);

/// `openxr::Posef`: a position and an orientation.
#[verifier::external_type_specification]
#[verifier::external_body]
pub struct ExPosef(openxr::Posef);

/// `openxr::Rect2Di`: a pixel rectangle as the runtime takes it.
#[verifier::external_type_specification]
#[verifier::external_body]
pub struct ExRect2Di(openxr::Rect2Di);

/// Holds an `openxr::FrameStream` of the OpenGL binding: the handle that
/// begins and ends frames.
#[verifier::external_body]
pub struct FrameStreamHandle {
    pub inner: openxr::FrameStream<openxr::OpenGL>,
}

/// Holds an `openxr::Swapchain` of the OpenGL binding.
#[verifier::external_body]
pub struct SwapchainHandle {
    inner: openxr::Swapchain<openxr::OpenGL>,
}

/// Holds an `openxr::Action` of poses.
#[verifier::external_body]
pub struct PoseAction {
    inner: openxr::Action<openxr::Posef>,
}

/// Whether an image of the swapchain has been waited for and not released:
/// the `waited` flag that `openxr::Swapchain` keeps.
pub uninterp spec fn image_waited(chain: &SwapchainHandle) -> bool;

/// Whether an instance was created with the OpenGL graphics extension
/// enabled, so that the extension's entry points are loaded.
pub uninterp spec fn opengl_loaded(instance: &openxr::Instance) -> bool;

/// The session that a space was created from.
pub uninterp spec fn space_session(space: &openxr::Space) -> int;

/// The session that a session handle, and every clone of it, stands for.
pub uninterp spec fn session_key(session: &openxr::Session<openxr::OpenGL>) -> int;

/// `openxr::sys::Result::into_raw`: the number of a result code.
#[verifier::external_body]
pub(crate) fn result_code(result: openxr::sys::Result) -> i32 {
    result.into_raw()
}

/// `openxr::Instance::poll_event`: takes the next event off the runtime's
/// queue, if there is one, without blocking. Nothing is promised of what
/// comes back.
#[verifier::external_body]
pub(crate) fn poll_event(
    instance: &openxr::Instance,
    storage: &mut openxr::EventDataBuffer,
) -> Result<Option<RawEvent>, openxr::sys::Result> {
    match instance.poll_event(storage) {
        Ok(Some(openxr::Event::SessionStateChanged(e))) => Ok(
            Some(RawEvent::SessionStateChanged(e.state().into_raw())),
        ),
        Ok(Some(openxr::Event::InstanceLossPending(_))) => Ok(Some(RawEvent::InstanceLossPending)),
        Ok(Some(openxr::Event::EventsLost(e))) => Ok(
            Some(RawEvent::EventsLost(e.lost_event_count())),
        ),
        Ok(Some(_)) => Ok(Some(RawEvent::Other)),
        Ok(None) => Ok(None),
        Err(code) => Err(code),
    }
}

/// `openxr::Session::begin`: asks the runtime to begin the session with the
/// view configuration of the given number.
#[verifier::external_body]
pub(crate) fn session_begin(
    session: &openxr::Session<openxr::OpenGL>,
    view_configuration: i32,
) -> Result<(), openxr::sys::Result> {
    match session.begin(openxr::ViewConfigurationType::from_raw(view_configuration)) {
        Ok(_) => Ok(()),
        Err(code) => Err(code),
    }
}

/// `openxr::Session::end`: asks the runtime to end the session.
#[verifier::external_body]
pub(crate) fn session_end(session: &openxr::Session<openxr::OpenGL>) -> Result<
    (),
    openxr::sys::Result,
> {
    match session.end() {
        Ok(_) => Ok(()),
        Err(code) => Err(code),
    }
}

/// `openxr::FrameWaiter::wait`: blocks until the runtime says it is time to
/// render, and returns what it says of the frame, times in nanoseconds.
#[verifier::external_body]
pub(crate) fn frame_wait(waiter: &mut openxr::FrameWaiter) -> Result<
    FrameState,
    openxr::sys::Result,
> {
    match waiter.wait() {
        Ok(state) => Ok(
            FrameState {
                predicted_display_time: state.predicted_display_time.as_nanos(),
                predicted_display_period: state.predicted_display_period.as_nanos(),
                should_render: state.should_render,
            },
        ),
        Err(code) => Err(code),
    }
}

/// `openxr::FrameStream::begin`: tells the runtime that work on the frame
/// begins.
#[verifier::external_body]
pub(crate) fn frame_begin(stream: &mut FrameStreamHandle) -> Result<(), openxr::sys::Result> {
    stream.inner.begin()
}

/// `openxr::FrameStream::end` with no layer.
#[verifier::external_body]
pub(crate) fn frame_end_empty(stream: &mut FrameStreamHandle, time: i64, blend_mode: i32) -> Result<
    (),
    openxr::sys::Result,
> {
    stream.inner.end(
        openxr::Time::from_nanos(time),
        openxr::EnvironmentBlendMode::from_raw(blend_mode),
        &[],
    )
}

/// `openxr::FrameStream::end` with one projection layer in `space`, made of
/// the left and the right view, each with its swapchain and rectangle.
#[verifier::external_body]
pub(crate) fn frame_end_projection(
    stream: &mut FrameStreamHandle,
    time: i64,
    blend_mode: i32,
    space: &openxr::Space,
    left: (&openxr::View, &SwapchainHandle, openxr::Rect2Di),
    right: (&openxr::View, &SwapchainHandle, openxr::Rect2Di),
) -> Result<(), openxr::sys::Result> {
    let left_image = SwapchainSubImage::new().swapchain(&left.1.inner).image_rect(left.2);
    let right_image = SwapchainSubImage::new().swapchain(&right.1.inner).image_rect(right.2);
    let left_view = CompositionLayerProjectionView::new().pose(left.0.pose).fov(left.0.fov);
    let right_view = CompositionLayerProjectionView::new().pose(right.0.pose).fov(right.0.fov);
    let views = [left_view.sub_image(left_image), right_view.sub_image(right_image)];
    let layer = CompositionLayerProjection::new().space(space).views(&views);
    let mode = openxr::EnvironmentBlendMode::from_raw(blend_mode);
    stream.inner.end(openxr::Time::from_nanos(time), mode, &[&layer])
}

/// Builds an `openxr::Rect2Di` from a rectangle, field by field.
#[verifier::external_body]
pub(crate) fn runtime_rect(rect: Rect) -> openxr::Rect2Di {
    openxr::Rect2Di {
        offset: openxr::Offset2Di { x: rect.offset.x, y: rect.offset.y },
        extent: openxr::Extent2Di { width: rect.extent.width, height: rect.extent.height },
    }
}

/// `openxr::Instance::enumerate_view_configuration_views`: what the runtime
/// recommends for each view of a configuration, in the runtime's order.
#[verifier::external_body]
pub(crate) fn view_configuration_views(
    instance: &openxr::Instance,
    system: u64,
    view_configuration: i32,
) -> Result<Vec<ViewConfig>, openxr::sys::Result> {
    let system = openxr::SystemId::from_raw(system);
    let kind = openxr::ViewConfigurationType::from_raw(view_configuration);
    let mut configs = Vec::new();
    for view in instance.enumerate_view_configuration_views(system, kind)? {
        configs.push(
            ViewConfig {
                recommended_width: view.recommended_image_rect_width,
                recommended_height: view.recommended_image_rect_height,
                recommended_sample_count: view.recommended_swapchain_sample_count,
            },
        );
    }
    Ok(configs)
}

/// `openxr::Session::enumerate_swapchain_formats`: the pixel formats the
/// runtime offers, as OpenGL names.
#[verifier::external_body]
pub(crate) fn swapchain_formats(session: &openxr::Session<openxr::OpenGL>) -> Result<
    Vec<u32>,
    openxr::sys::Result,
> {
    session.enumerate_swapchain_formats()
}

/// `openxr::Session::create_swapchain`: creates a swapchain as requested. A
/// new swapchain has no image waited for.
#[verifier::external_body]
pub(crate) fn create_swapchain(
    session: &openxr::Session<openxr::OpenGL>,
    request: &SwapchainRequest,
) -> (made: Result<SwapchainHandle, openxr::sys::Result>)
    ensures
        made matches Ok(chain) ==> !image_waited(&chain),
{
    let info = openxr::SwapchainCreateInfo {
        create_flags: openxr::SwapchainCreateFlags::from_raw(request.create_flags),
        usage_flags: openxr::SwapchainUsageFlags::from_raw(request.usage_flags),
        format: request.format,
        sample_count: request.sample_count,
        width: request.width,
        height: request.height,
        face_count: request.face_count,
        array_size: request.array_size,
        mip_count: request.mip_count,
    };
    Ok(SwapchainHandle { inner: session.create_swapchain(&info)? })
}

/// `openxr::Swapchain::enumerate_images`: the OpenGL texture names of the
/// swapchain's images.
#[verifier::external_body]
pub(crate) fn swapchain_images(chain: &SwapchainHandle) -> Result<Vec<u32>, openxr::sys::Result> {
    chain.inner.enumerate_images()
}

/// `openxr::Swapchain::acquire_image`: the index of the next image to render
/// to. The call leaves the `waited` flag as it is.
#[verifier::external_body]
pub(crate) fn acquire_image(chain: &mut SwapchainHandle) -> (acquired: Result<
    u32,
    openxr::sys::Result,
>)
    ensures
        image_waited(final(chain)) == image_waited(old(chain)),
{
    chain.inner.acquire_image()
}

/// `openxr::Swapchain::wait_image`: waits until the acquired image can be
/// written, for at most `timeout` nanoseconds. The binding panics when an
/// image has been waited for and not released. It sets the `waited` flag when
/// the runtime call succeeds.
#[verifier::external_body]
pub(crate) fn wait_image(chain: &mut SwapchainHandle, timeout: i64) -> (waited: Result<
    (),
    openxr::sys::Result,
>)
    requires
        !image_waited(old(chain)),
    ensures
        image_waited(final(chain)) == (waited is Ok),
{
    chain.inner.wait_image(openxr::Duration::from_nanos(timeout))
}

/// `openxr::Swapchain::release_image`: hands the image back to the runtime.
/// The binding panics when no image has been waited for. It clears the
/// `waited` flag when the runtime call succeeds.
#[verifier::external_body]
pub(crate) fn release_image(chain: &mut SwapchainHandle) -> (released: Result<
    (),
    openxr::sys::Result,
>)
    requires
        image_waited(old(chain)),
    ensures
        image_waited(final(chain)) == (released is Err),
{
    chain.inner.release_image()
}

/// `openxr::Session::sync_actions` with one action set: updates the state of
/// its actions.
#[verifier::external_body]
pub(crate) fn sync_actions(
    session: &openxr::Session<openxr::OpenGL>,
    set: &openxr::ActionSet,
) -> Result<(), openxr::sys::Result> {
    session.sync_actions(&[openxr::ActiveActionSet::new(set)])
}

/// `openxr::Session::locate_views`: the views of a configuration at `time`,
/// located in `space`, in the runtime's order.
#[verifier::external_body]
pub(crate) fn locate_views(
    session: &openxr::Session<openxr::OpenGL>,
    view_configuration: i32,
    time: i64,
    space: &openxr::Space,
) -> Result<Vec<openxr::View>, openxr::sys::Result> {
    let kind = openxr::ViewConfigurationType::from_raw(view_configuration);
    match session.locate_views(kind, openxr::Time::from_nanos(time), space) {
        Ok((_, views)) => Ok(views),
        Err(code) => Err(code),
    }
}

/// `openxr::Space::locate`: the pose of `space` in `base` at `time`. The
/// binding panics unless both spaces were created from the same session.
#[verifier::external_body]
pub(crate) fn space_locate(space: &openxr::Space, base: &openxr::Space, time: i64) -> Result<
    openxr::Posef,
    openxr::sys::Result,
>
    requires
        space_session(space) == space_session(base),
{
    match space.locate(base, openxr::Time::from_nanos(time)) {
        Ok(location) => Ok(location.pose),
        Err(code) => Err(code),
    }
}

/// `openxr::Action::is_active` of a pose action: whether the runtime reports
/// the action as active for the subaction path of the given number.
#[verifier::external_body]
pub(crate) fn action_is_active(
    action: &PoseAction,
    session: &openxr::Session<openxr::OpenGL>,
    subaction_path: u64,
) -> Result<bool, openxr::sys::Result> {
    action.inner.is_active(session, openxr::Path::from_raw(subaction_path))
}

/// `openxr::Entry::enumerate_extensions`: whether the runtime supports the
/// OpenGL graphics extension. The binding panics on an extension name that
/// the runtime did not terminate.
#[verifier::external_body]
pub(crate) fn opengl_supported(entry: &openxr::Entry) -> Result<bool, openxr::sys::Result> {
    match entry.enumerate_extensions() {
        Ok(extensions) => Ok(extensions.khr_opengl_enable),
        Err(code) => Err(code),
    }
}

/// `openxr::Entry::create_instance`: connects to the runtime under an
/// application name, with the OpenGL graphics extension enabled or not and no
/// other. The binding panics on a name of 128 bytes or more. It loads the
/// entry points of the extensions that were asked for, and of no other.
#[verifier::external_body]
pub(crate) fn create_instance(
    entry: &openxr::Entry,
    application_name: &str,
    opengl: bool,
) -> (made: Result<openxr::Instance, openxr::sys::Result>)
    requires
        application_name.len() < 128,
    ensures
        made matches Ok(instance) ==> opengl_loaded(&instance) == opengl,
{
    let info = openxr::ApplicationInfo { application_name, ..Default::default() };
    let mut extensions = openxr::ExtensionSet::default();
    extensions.khr_opengl_enable = opengl;
    entry.create_instance(&info, &extensions, &[], &())
}

/// `openxr::Instance::system`: the system of the form factor of the given
/// number, as a number.
#[verifier::external_body]
pub(crate) fn instance_system(instance: &openxr::Instance, form_factor: i32) -> Result<
    u64,
    openxr::sys::Result,
> {
    match instance.system(openxr::FormFactor::from_raw(form_factor)) {
        Ok(system) => Ok(system.into_raw()),
        Err(code) => Err(code),
    }
}

/// `openxr::Instance::graphics_requirements` of the OpenGL binding: asks the
/// runtime for the OpenGL versions it accepts, which it wants asked before a
/// session is created. The binding panics unless the instance has the OpenGL
/// graphics extension loaded.
#[verifier::external_body]
pub(crate) fn graphics_requirements(instance: &openxr::Instance, system: u64) -> Result<
    (),
    openxr::sys::Result,
>
    requires
        opengl_loaded(instance),
{
    match instance.graphics_requirements::<openxr::OpenGL>(openxr::SystemId::from_raw(system)) {
        Ok(_) => Ok(()),
        Err(code) => Err(code),
    }
}

/// `openxr::Instance::enumerate_environment_blend_modes`: the numbers of the
/// blend modes that the system supports for a view configuration, in the
/// runtime's order of preference.
#[verifier::external_body]
pub(crate) fn blend_modes(
    instance: &openxr::Instance,
    system: u64,
    view_configuration: i32,
) -> Result<Vec<i32>, openxr::sys::Result> {
    let system = openxr::SystemId::from_raw(system);
    let kind = openxr::ViewConfigurationType::from_raw(view_configuration);
    let mut numbers = Vec::new();
    for mode in instance.enumerate_environment_blend_modes(system, kind)? {
        numbers.push(mode.into_raw());
    }
    Ok(numbers)
}

/// `openxr::Instance::create_action_set`. The binding panics on a name that
/// does not fit 64 bytes with its terminator, or a localized name that does
/// not fit 128.
#[verifier::external_body]
pub(crate) fn create_action_set(
    instance: &openxr::Instance,
    name: &str,
    localized_name: &str,
    priority: u32,
) -> Result<openxr::ActionSet, openxr::sys::Result>
    requires
        name.len() < 64,
        localized_name.len() < 128,
{
    instance.create_action_set(name, localized_name, priority)
}

/// `openxr::ActionSet::create_action` for a pose action without subaction
/// paths. The binding panics on a name that does not fit 64 bytes with its
/// terminator, or a localized name that does not fit 128.
#[verifier::external_body]
pub(crate) fn create_pose_action(
    set: &openxr::ActionSet,
    name: &str,
    localized_name: &str,
) -> Result<PoseAction, openxr::sys::Result>
    requires
        name.len() < 64,
        localized_name.len() < 128,
{
    Ok(PoseAction { inner: set.create_action::<openxr::Posef>(name, localized_name, &[])? })
}

/// `openxr::Instance::string_to_path`: the number of a path.
#[verifier::external_body]
pub(crate) fn string_to_path(instance: &openxr::Instance, path: &str) -> Result<
    u64,
    openxr::sys::Result,
> {
    match instance.string_to_path(path) {
        Ok(path) => Ok(path.into_raw()),
        Err(code) => Err(code),
    }
}

/// `openxr::Instance::suggest_interaction_profile_bindings` with two
/// bindings, each of a pose action to the path of the given number.
#[verifier::external_body]
pub(crate) fn suggest_bindings(
    instance: &openxr::Instance,
    profile: u64,
    first: (&PoseAction, u64),
    second: (&PoseAction, u64),
) -> Result<(), openxr::sys::Result> {
    let bindings = [
        openxr::Binding::new(&first.0.inner, openxr::Path::from_raw(first.1)),
        openxr::Binding::new(&second.0.inner, openxr::Path::from_raw(second.1)),
    ];
    instance.suggest_interaction_profile_bindings(openxr::Path::from_raw(profile), &bindings)
}

/// `openxr::Session::attach_action_sets` with one action set.
#[verifier::external_body]
pub(crate) fn attach_action_set(
    session: &openxr::Session<openxr::OpenGL>,
    set: &openxr::ActionSet,
) -> Result<(), openxr::sys::Result> {
    session.attach_action_sets(&[set])
}

/// `openxr::Action::create_space` of a pose action, at the identity pose:
/// the space that follows the action. The space is the session's.
#[verifier::external_body]
pub(crate) fn create_action_space(
    action: &PoseAction,
    session: &openxr::Session<openxr::OpenGL>,
    subaction_path: u64,
) -> (made: Result<openxr::Space, openxr::sys::Result>)
    ensures
        made matches Ok(space) ==> space_session(&space) == session_key(session),
{
    let path = openxr::Path::from_raw(subaction_path);
    action.inner.create_space(session, path, openxr::Posef::IDENTITY)
}

/// `openxr::Session::create_reference_space`, at the identity pose: the
/// reference space of the kind of the given number. The space is the
/// session's.
#[verifier::external_body]
pub(crate) fn create_reference_space(
    session: &openxr::Session<openxr::OpenGL>,
    kind: i32,
) -> (made: Result<openxr::Space, openxr::sys::Result>)
    ensures
        made matches Ok(space) ==> space_session(&space) == session_key(session),
{
    let kind = openxr::ReferenceSpaceType::from_raw(kind);
    session.create_reference_space(kind, openxr::Posef::IDENTITY)
}

/// `openxr::EventDataBuffer::new`: fresh storage for polled events.
#[verifier::external_body]
pub(crate) fn new_event_storage() -> openxr::EventDataBuffer {
    openxr::EventDataBuffer::new()
}

} // verus!
