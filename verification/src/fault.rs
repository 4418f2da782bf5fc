//! What can go wrong, and how it is told.
//!
//! Nothing in this library panics. A condition that makes the setup
//! impossible is a [`StartupFault`] and is final. A runtime call that fails
//! while frames are driven is a [`FrameFault`]; the frame protocol cannot be
//! picked up after it. What is expected to happen from time to time (a pose
//! that cannot be located, a frame that is not to be rendered, an empty event
//! queue) is no fault at all.

use crate::swapchain::SetupFault;
use vstd::prelude::*;

verus! {

/// A call into the runtime.
#[derive(Clone, Copy, Debug, PartialEq, Eq, Structural)]
pub enum RuntimeCall {
    EnumerateExtensions,
    CreateInstance,
    GetSystem,
    BlendModes,
    GraphicsRequirements,
    CreateActionSet,
    CreateAction,
    StringToPath,
    SuggestBindings,
    AttachActionSet,
    CreateSpace,
    PollEvent,
    BeginSession,
    EndSession,
    WaitFrame,
    BeginFrame,
    EndFrame,
    ViewConfigurationViews,
    SwapchainFormats,
    CreateSwapchain,
    SwapchainImages,
    SyncActions,
    LocateViews,
    LocateSpace,
    ActionState,
    AcquireImage,
    WaitImage,
    ReleaseImage,
}

/// A runtime call that failed, with the result code the runtime gave.
#[derive(Clone, Copy, Debug, PartialEq, Eq, Structural)]
pub struct RuntimeFault {
    pub call: RuntimeCall,
    pub code: i32,
}

/// Why the manager could not be set up. Every one of these is final: nothing
/// is retried.
#[derive(Clone, Copy, Debug, PartialEq, Eq, Structural)]
pub enum StartupFault {
    /// The runtime does not support the OpenGL graphics extension.
    ExtensionUnsupported,
    /// The application name is longer than the runtime takes.
    NameTooLong,
    /// The system offers no environment blend mode.
    NoBlendMode,
    /// A runtime call failed.
    Runtime(RuntimeFault),
}

/// Why a frame was given up.
#[derive(Clone, Copy, Debug, PartialEq, Eq, Structural)]
pub enum FrameFault {
    /// A runtime call failed.
    Runtime(RuntimeFault),
    /// The swapchain set could not be made.
    Setup(SetupFault),
    /// The runtime located another number of views than one per eye.
    ViewCount { found: usize },
    /// The runtime handed out an image index that the swapchain does not
    /// have.
    ImageIndex { eye: u32, index: u32 },
    /// An earlier frame was given up: no frame is driven any more.
    Halted,
}

/// What a draw callback reports when it fails.
#[derive(Clone, Copy, Debug, PartialEq, Eq, Structural)]
pub struct DrawFault {
    pub code: i32,
}

/// What to tell the user about a fault of the setup.
pub open spec fn startup_message(fault: StartupFault) -> Seq<char> {
    match fault {
        StartupFault::ExtensionUnsupported => "XR: OpenGL extension unsupported"@,
        StartupFault::NameTooLong => "XR: the application name is too long"@,
        StartupFault::NoBlendMode => "XR: the system offers no environment blend mode"@,
        StartupFault::Runtime(_) => "XR: a call to the runtime failed"@,
    }
}

impl StartupFault {
    /// What to tell the user about this fault.
    pub fn message(&self) -> (text: &'static str)
        ensures
            text@ == startup_message(*self),
    {
        match self {
            StartupFault::ExtensionUnsupported => "XR: OpenGL extension unsupported",
            StartupFault::NameTooLong => "XR: the application name is too long",
            StartupFault::NoBlendMode => "XR: the system offers no environment blend mode",
            StartupFault::Runtime(_) => "XR: a call to the runtime failed",
        }
    }
}

} // verus!
