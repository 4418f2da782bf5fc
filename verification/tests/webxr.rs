use xr_session::webxr::WebXR;

#[test]
fn a_new_control_is_not_running_and_has_no_session() {
    let control = WebXR::new();
    assert!(!control.is_running());
    assert!(!control.has_session());
}

#[test]
fn the_first_start_launches_and_the_second_does_not() {
    let mut control = WebXR::new();
    assert!(control.start());
    assert!(control.is_running());
    assert!(!control.start());
    assert!(control.is_running());
}

#[test]
fn stop_without_start_does_nothing() {
    let mut control = WebXR::new();
    assert!(!control.stop());
    assert!(!control.is_running());
    control.session_granted();
    assert!(!control.stop());
    assert!(!control.is_running());
    assert!(control.has_session());
}

#[test]
fn stop_before_the_session_is_granted_changes_nothing() {
    let mut control = WebXR::new();
    assert!(control.start());
    assert!(!control.stop());
    assert!(control.is_running());
    assert!(!control.has_session());
}

#[test]
fn stop_ends_a_granted_session() {
    let mut control = WebXR::new();
    assert!(control.start());
    control.session_granted();
    assert!(control.has_session());
    assert!(control.stop());
    assert!(!control.is_running());
    assert!(control.has_session());
    assert!(!control.stop());
}

#[test]
fn a_stopped_control_can_be_started_again() {
    let mut control = WebXR::new();
    assert!(control.start());
    control.session_granted();
    assert!(control.stop());
    assert!(control.start());
    assert!(control.is_running());
    assert!(control.stop());
}
