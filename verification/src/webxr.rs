//! Session control for the browser runtime.
//!
//! In a browser the session is requested asynchronously and the runtime
//! drives the frames itself through animation-frame callbacks. What is left
//! to decide is when to launch the request and when to end the session:
//! [`WebXR`] keeps the two facts that decide it. The embedding performs the
//! requests and reports back with [`WebXR::session_granted`].

use vstd::prelude::*;

verus! {

/// The control state of a browser session.
#[derive(Clone, Copy, Debug, PartialEq, Eq, Structural)]
pub struct WebXR {
    running: bool,
    session_present: bool,
}

/// The control state as a plain value.
pub struct WebXRModel {
    /// A start was asked for and no stop has ended it.
    pub running: bool,
    /// The browser has granted a session.
    pub session_present: bool,
}

impl View for WebXR {
    type V = WebXRModel;

    closed spec fn view(&self) -> WebXRModel {
        WebXRModel { running: self.running, session_present: self.session_present }
    }
}

impl WebXR {
    /// A control state that is not running and has no session.
    pub fn new() -> (control: WebXR)
        ensures
            control@ == (WebXRModel { running: false, session_present: false }),
    {
        WebXR { running: false, session_present: false }
    }

    pub fn is_running(&self) -> (running: bool)
        ensures
            running == self@.running,
    {
        self.running
    }

    pub fn has_session(&self) -> (present: bool)
        ensures
            present == self@.session_present,
    {
        self.session_present
    }

    /// Asks to start. Returns whether the embedding is to launch the session
    /// request: it is, unless a start is already under way.
    pub fn start(&mut self) -> (launch: bool)
        ensures
            launch == !old(self)@.running,
            final(self)@ == (WebXRModel { running: true, ..old(self)@ }),
    {
        if self.running {
            return false;
        }
        self.running = true;
        true
    }

    /// Records that the browser has granted the session.
    pub fn session_granted(&mut self)
        ensures
            final(self)@ == (WebXRModel { session_present: true, ..old(self)@ }),
    {
        self.session_present = true;
    }

    /// Asks to stop. Returns whether the embedding is to end the session: it
    /// is when a start is under way and the session has been granted. A stop
    /// that comes before the session is granted changes nothing.
    pub fn stop(&mut self) -> (end: bool)
        ensures
            end == (old(self)@.running && old(self)@.session_present),
            final(self)@ == (WebXRModel { running: old(self)@.running && !end, ..old(self)@ }),
    {
        if !self.running {
            return false;
        }
        if self.session_present {
            self.running = false;
            return true;
        }
        false
    }
}

} // verus!
