//! The decisions of the setup: what the answers of the runtime mean before a
//! session exists.

use crate::fault::StartupFault;
use vstd::prelude::*;

verus! {

/// The number of the stereo view configuration.
pub const VIEW_CONFIGURATION_STEREO: i32 = 2;

/// The number of the head-mounted-display form factor.
pub const FORM_FACTOR_HEAD_MOUNTED_DISPLAY: i32 = 1;

/// The number of the stage reference space.
pub const REFERENCE_SPACE_STAGE: i32 = 3;

/// The longest application name the runtime takes, in bytes.
pub const MAX_APPLICATION_NAME_BYTES: usize = 127;

/// The subaction path that stands for none.
pub const PATH_NULL: u64 = 0;

/// The timeout that never runs out, in nanoseconds.
pub const TIMEOUT_INFINITE: i64 = i64::MAX;

/// The runtime must support the OpenGL graphics extension.
pub fn require_opengl(supported: bool) -> (checked: Result<(), StartupFault>)
    ensures
        checked == if supported {
            Ok::<(), StartupFault>(())
        } else {
            Err::<(), StartupFault>(StartupFault::ExtensionUnsupported)
        },
{
    if supported {
        Ok(())
    } else {
        Err(StartupFault::ExtensionUnsupported)
    }
}

/// The application name must fit what the runtime takes.
pub fn check_application_name(name: &str) -> (checked: Result<(), StartupFault>)
    ensures
        checked == if name.len() <= MAX_APPLICATION_NAME_BYTES {
            Ok::<(), StartupFault>(())
        } else {
            Err::<(), StartupFault>(StartupFault::NameTooLong)
        },
{
    if name.len() <= MAX_APPLICATION_NAME_BYTES {
        Ok(())
    } else {
        Err(StartupFault::NameTooLong)
    }
}

/// The blend mode to present with: the first that the runtime lists, which
/// is the one it prefers.
pub fn preferred_blend_mode(modes: &Vec<i32>) -> (picked: Result<i32, StartupFault>)
    ensures
        picked == if modes@.len() > 0 {
            Ok::<i32, StartupFault>(modes@[0])
        } else {
            Err::<i32, StartupFault>(StartupFault::NoBlendMode)
        },
{
    if modes.len() > 0 {
        Ok(modes[0])
    } else {
        Err(StartupFault::NoBlendMode)
    }
}

} // verus!
