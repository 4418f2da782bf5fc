use xr_session::fault::{RuntimeCall, RuntimeFault, StartupFault};
use xr_session::startup::{
    check_application_name, preferred_blend_mode, require_opengl,
    FORM_FACTOR_HEAD_MOUNTED_DISPLAY, MAX_APPLICATION_NAME_BYTES, PATH_NULL,
    REFERENCE_SPACE_STAGE, TIMEOUT_INFINITE, VIEW_CONFIGURATION_STEREO,
};

#[test]
fn the_numbers_are_those_of_the_runtime_binding() {
    assert_eq!(
        VIEW_CONFIGURATION_STEREO,
        openxr::ViewConfigurationType::PRIMARY_STEREO.into_raw()
    );
    assert_eq!(
        FORM_FACTOR_HEAD_MOUNTED_DISPLAY,
        openxr::FormFactor::HEAD_MOUNTED_DISPLAY.into_raw()
    );
    assert_eq!(REFERENCE_SPACE_STAGE, openxr::ReferenceSpaceType::STAGE.into_raw());
    assert_eq!(PATH_NULL, openxr::Path::NULL.into_raw());
    assert_eq!(TIMEOUT_INFINITE, openxr::Duration::INFINITE.as_nanos());
    assert_eq!(MAX_APPLICATION_NAME_BYTES + 1, openxr::sys::MAX_APPLICATION_NAME_SIZE);
}

#[test]
fn the_opengl_extension_is_required() {
    assert_eq!(require_opengl(true), Ok(()));
    assert_eq!(require_opengl(false), Err(StartupFault::ExtensionUnsupported));
}

#[test]
fn an_application_name_may_be_up_to_127_bytes() {
    assert_eq!(check_application_name(""), Ok(()));
    assert_eq!(check_application_name("hello openxrs"), Ok(()));
    assert_eq!(check_application_name(&"a".repeat(127)), Ok(()));
    assert_eq!(check_application_name(&"a".repeat(128)), Err(StartupFault::NameTooLong));
    assert_eq!(check_application_name(&"a".repeat(1000)), Err(StartupFault::NameTooLong));
}

#[test]
fn an_application_name_is_measured_in_bytes() {
    let umlauts = "\u{e4}".repeat(64);
    assert_eq!(umlauts.chars().count(), 64);
    assert_eq!(umlauts.len(), 128);
    assert_eq!(check_application_name(&umlauts), Err(StartupFault::NameTooLong));
    assert_eq!(check_application_name(&"\u{e4}".repeat(63)), Ok(()));
}

#[test]
fn the_first_blend_mode_is_preferred() {
    assert_eq!(preferred_blend_mode(&vec![1]), Ok(1));
    assert_eq!(preferred_blend_mode(&vec![3, 1, 2]), Ok(3));
    assert_eq!(preferred_blend_mode(&vec![]), Err(StartupFault::NoBlendMode));
}

#[test]
fn startup_faults_have_their_messages() {
    assert_eq!(StartupFault::ExtensionUnsupported.message(), "XR: OpenGL extension unsupported");
    assert_eq!(StartupFault::NameTooLong.message(), "XR: the application name is too long");
    assert_eq!(
        StartupFault::NoBlendMode.message(),
        "XR: the system offers no environment blend mode"
    );
    let fault = RuntimeFault { call: RuntimeCall::CreateInstance, code: -2 };
    assert_eq!(StartupFault::Runtime(fault).message(), "XR: a call to the runtime failed");
}
