//! The swapchain set: what to ask the runtime for, one swapchain per eye.
//!
//! The runtime recommends an image size and a sample count for each view and
//! lists the pixel formats it offers. From these [`plan_swapchains`] works out
//! the creation request of each eye's swapchain and the pixel rectangle that
//! goes with it, or says why no set can be made.

use crate::fault::FrameFault;
use crate::frame::EYES;
use vstd::prelude::*;

verus! {

/// The swapchain usage bit for images used as a colour attachment.
pub const USAGE_COLOR_ATTACHMENT: u64 = 0x0000_0001;

/// The swapchain usage bit for images that are sampled.
pub const USAGE_SAMPLED: u64 = 0x0000_0020;

/// The pixel format every swapchain is created with: the OpenGL name of
/// sRGB with 8-bit channels and alpha.
pub const FORMAT_SRGB8_ALPHA8: u32 = 0x8C43;

/// What the runtime recommends for one view.
#[derive(Clone, Copy, Debug, PartialEq, Eq, Structural)]
pub struct ViewConfig {
    pub recommended_width: u32,
    pub recommended_height: u32,
    pub recommended_sample_count: u32,
}

#[derive(Clone, Copy, Debug, PartialEq, Eq, Structural)]
pub struct Offset {
    pub x: i32,
    pub y: i32,
}

#[derive(Clone, Copy, Debug, PartialEq, Eq, Structural)]
pub struct Extent {
    pub width: i32,
    pub height: i32,
}

/// A pixel rectangle: the viewport of an eye and the part of its swapchain
/// image that is shown.
#[derive(Clone, Copy, Debug, PartialEq, Eq, Structural)]
pub struct Rect {
    pub offset: Offset,
    pub extent: Extent,
}

/// The creation request of one swapchain.
#[derive(Clone, Copy, Debug, PartialEq, Eq, Structural)]
pub struct SwapchainRequest {
    pub create_flags: u64,
    pub usage_flags: u64,
    pub format: u32,
    pub sample_count: u32,
    pub width: u32,
    pub height: u32,
    pub face_count: u32,
    pub array_size: u32,
    pub mip_count: u32,
}

/// One eye's swapchain as planned: what to create, and its rectangle.
#[derive(Clone, Copy, Debug, PartialEq, Eq, Structural)]
pub struct SwapchainPlan {
    pub request: SwapchainRequest,
    pub rect: Rect,
}

/// Why no swapchain set can be made.
#[derive(Clone, Copy, Debug, PartialEq, Eq, Structural)]
pub enum SetupFault {
    /// The runtime does not describe exactly one view per eye.
    ViewCount { found: usize },
    /// The runtime does not offer the pixel format.
    FormatUnsupported,
    /// A recommended size does not fit a pixel rectangle.
    ExtentOutOfRange { view: usize },
}

/// What to tell the user about a fault.
pub open spec fn setup_message(fault: SetupFault) -> Seq<char> {
    match fault {
        SetupFault::ViewCount { .. } => "XR: the runtime does not describe two views"@,
        SetupFault::FormatUnsupported => "XR: Cannot use OpenGL GL_SRGB8_ALPHA8 swapchain format"@,
        SetupFault::ExtentOutOfRange { .. } => "XR: a recommended image size is out of range"@,
    }
}

impl SetupFault {
    /// What to tell the user about this fault.
    pub fn message(&self) -> (text: &'static str)
        ensures
            text@ == setup_message(*self),
    {
        match self {
            SetupFault::ViewCount { .. } => "XR: the runtime does not describe two views",
            SetupFault::FormatUnsupported => {
                "XR: Cannot use OpenGL GL_SRGB8_ALPHA8 swapchain format"
            },
            SetupFault::ExtentOutOfRange { .. } => "XR: a recommended image size is out of range",
        }
    }
}

/// Whether a recommended size fits a pixel rectangle.
pub open spec fn extent_fits(view: ViewConfig) -> bool {
    view.recommended_width <= i32::MAX && view.recommended_height <= i32::MAX
}

/// The rectangle of a view: the whole recommended image, from the origin.
pub open spec fn rect_of(view: ViewConfig) -> Rect {
    Rect {
        offset: Offset { x: 0, y: 0 },
        extent: Extent {
            width: view.recommended_width as i32,
            height: view.recommended_height as i32,
        },
    }
}

/// The creation request of a view's swapchain: a single-layer, single-face,
/// single-level colour target of the recommended size and sample count that
/// can also be sampled.
pub open spec fn request_of(view: ViewConfig) -> SwapchainRequest {
    SwapchainRequest {
        create_flags: 0,
        usage_flags: 0x21,
        format: FORMAT_SRGB8_ALPHA8,
        sample_count: view.recommended_sample_count,
        width: view.recommended_width,
        height: view.recommended_height,
        face_count: 1,
        array_size: 1,
        mip_count: 1,
    }
}

pub open spec fn plan_of(view: ViewConfig) -> SwapchainPlan {
    SwapchainPlan { request: request_of(view), rect: rect_of(view) }
}

/// The first view whose recommended size does not fit, if there is one.
pub open spec fn first_unfit(views: Seq<ViewConfig>) -> Option<int> {
    if exists|i: int| 0 <= i < views.len() && !extent_fits(#[trigger] views[i]) {
        Some(
            choose|i: int|
                0 <= i < views.len() && !extent_fits(#[trigger] views[i]) && forall|j: int|
                    0 <= j < i ==> extent_fits(#[trigger] views[j]),
        )
    } else {
        None
    }
}

/// What planning comes to. The view count is checked first, then the format,
/// then the sizes, view by view.
pub open spec fn plan_outcome(views: Seq<ViewConfig>, formats: Seq<u32>) -> Result<
    Seq<SwapchainPlan>,
    SetupFault,
> {
    if views.len() != EYES {
        Err(SetupFault::ViewCount { found: views.len() as usize })
    } else if !formats.contains(FORMAT_SRGB8_ALPHA8) {
        Err(SetupFault::FormatUnsupported)
    } else if first_unfit(views) is Some {
        Err(SetupFault::ExtentOutOfRange { view: first_unfit(views)->Some_0 as usize })
    } else {
        Ok(views.map_values(|view: ViewConfig| plan_of(view)))
    }
}

/// Whether the runtime offers a pixel format.
pub fn format_offered(formats: &Vec<u32>, wanted: u32) -> (offered: bool)
    ensures
        offered == formats@.contains(wanted),
{
    let mut i: usize = 0;
    while i < formats.len()
        invariant
            i <= formats.len(),
            forall|j: int| 0 <= j < i ==> formats@[j] != wanted,
        decreases formats.len() - i,
    {
        if formats[i] == wanted {
            return true;
        }
        i += 1;
    }
    false
}

impl ViewConfig {
    /// The pixel rectangle of this view, if its recommended size fits one.
    pub fn rect(&self) -> (rect: Option<Rect>)
        ensures
            rect == if extent_fits(*self) {
                Some(rect_of(*self))
            } else {
                None
            },
    {
        if self.recommended_width > i32::MAX as u32 || self.recommended_height > i32::MAX as u32 {
            return None;
        }
        Some(
            Rect {
                offset: Offset { x: 0, y: 0 },
                extent: Extent {
                    width: self.recommended_width as i32,
                    height: self.recommended_height as i32,
                },
            },
        )
    }

    /// The creation request of this view's swapchain.
    pub fn request(&self) -> (request: SwapchainRequest)
        ensures
            request == request_of(*self),
            request.usage_flags == USAGE_COLOR_ATTACHMENT | USAGE_SAMPLED,
    {
        assert(0x0000_0001u64 | 0x0000_0020u64 == 0x21u64) by (bit_vector);
        SwapchainRequest {
            create_flags: 0,
            usage_flags: USAGE_COLOR_ATTACHMENT | USAGE_SAMPLED,
            format: FORMAT_SRGB8_ALPHA8,
            sample_count: self.recommended_sample_count,
            width: self.recommended_width,
            height: self.recommended_height,
            face_count: 1,
            array_size: 1,
            mip_count: 1,
        }
    }
}

/// The texture name of the image that the runtime handed out for `eye`. An
/// index that the swapchain has no image for is a fault.
pub fn acquired_image(images: &Vec<u32>, eye: u32, index: u32) -> (image: Result<u32, FrameFault>)
    ensures
        image == if index < images@.len() {
            Ok::<u32, FrameFault>(images@[index as int])
        } else {
            Err::<u32, FrameFault>(FrameFault::ImageIndex { eye, index })
        },
{
    if (index as usize) < images.len() {
        Ok(images[index as usize])
    } else {
        Err(FrameFault::ImageIndex { eye, index })
    }
}

/// Plans the swapchain set: one swapchain per eye, in the order of the views.
pub fn plan_swapchains(views: &Vec<ViewConfig>, formats: &Vec<u32>) -> (plans: Result<
    Vec<SwapchainPlan>,
    SetupFault,
>)
    ensures
        plans matches Ok(made) ==> plan_outcome(views@, formats@) == Ok::<
            Seq<SwapchainPlan>,
            SetupFault,
        >(made@),
        plans matches Err(fault) ==> plan_outcome(views@, formats@) == Err::<
            Seq<SwapchainPlan>,
            SetupFault,
        >(fault),
{
    if views.len() != EYES as usize {
        return Err(SetupFault::ViewCount { found: views.len() });
    }
    if !format_offered(formats, FORMAT_SRGB8_ALPHA8) {
        return Err(SetupFault::FormatUnsupported);
    }
    let mut made: Vec<SwapchainPlan> = Vec::new();
    let mut i: usize = 0;
    while i < views.len()
        invariant
            i <= views.len(),
            views@.len() == EYES,
            formats@.contains(FORMAT_SRGB8_ALPHA8),
            made@.len() == i,
            forall|j: int| 0 <= j < i ==> extent_fits(#[trigger] views@[j]),
            forall|j: int| 0 <= j < i ==> made@[j] == plan_of(views@[j]),
        decreases views.len() - i,
    {
        let view = views[i];
        match view.rect() {
            Some(rect) => {
                made.push(SwapchainPlan { request: view.request(), rect });
            },
            None => {
                proof {
                    lemma_first_unfit(views@, i as int);
                }
                return Err(SetupFault::ExtentOutOfRange { view: i });
            },
        }
        i += 1;
    }
    proof {
        assert(first_unfit(views@) is None);
        assert(made@ =~= views@.map_values(|view: ViewConfig| plan_of(view)));
    }
    Ok(made)
}

/// A view that does not fit, with all views before it fitting, is the first
/// that does not fit.
proof fn lemma_first_unfit(views: Seq<ViewConfig>, i: int)
    requires
        0 <= i < views.len(),
        !extent_fits(views[i]),
        forall|j: int| 0 <= j < i ==> extent_fits(#[trigger] views[j]),
    ensures
        first_unfit(views) == Some(i),
{
    let k = choose|k: int|
        0 <= k < views.len() && !extent_fits(#[trigger] views[k]) && forall|j: int|
            0 <= j < k ==> extent_fits(#[trigger] views[j]);
    assert(0 <= k < views.len() && !extent_fits(views[k]) && forall|j: int|
        0 <= j < k ==> extent_fits(#[trigger] views[j]));
    if k < i {
        assert(extent_fits(views[k]));
    } else if i < k {
        assert(extent_fits(views[i]));
    }
}

/// A set that was planned holds one swapchain per eye, each of the size the
/// runtime recommended for that eye and in the one pixel format.
pub proof fn lemma_plan_per_eye(views: Seq<ViewConfig>, formats: Seq<u32>, eye: int)
    requires
        plan_outcome(views, formats) is Ok,
        0 <= eye < EYES,
    ensures
        plan_outcome(views, formats)->Ok_0.len() == EYES,
        plan_outcome(views, formats)->Ok_0[eye] == plan_of(views[eye]),
        plan_outcome(views, formats)->Ok_0[eye].rect.extent.width == views[eye].recommended_width,
        plan_outcome(views, formats)->Ok_0[eye].rect.extent.height
            == views[eye].recommended_height,
        formats.contains(plan_outcome(views, formats)->Ok_0[eye].request.format),
{
    if !extent_fits(views[eye]) {
        assert(first_unfit(views) is Some);
    }
}

} // verus!
