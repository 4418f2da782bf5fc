//! The session and frame layer of a stereo renderer for head-mounted
//! displays.
//!
//! The runtime of a headset speaks a strict protocol: a session goes through
//! states that the runtime announces in events; a frame is waited for, begun
//! and ended, in that order and exactly once; an image of a swapchain is
//! acquired, waited for, drawn to and released. This library holds that
//! protocol.
//!
//! * [`lifecycle`]: what each runtime event does to the session.
//! * [`frame`]: which call of a frame comes next, and [`frame_laws`]: what
//!   holds of every sequence of calls.
//! * [`swapchain`]: what to create for each eye.
//! * [`tracking`]: tracked poses and their loss.
//! * [`startup`]: what the answers of the runtime mean during setup.
//! * [`fault`]: what can go wrong.
//! * [`manager`]: all of the above, run against the runtime.
//! * [`runtime`]: the calls into the runtime, taken on trust.
//! * [`webxr`]: session control for the browser runtime.

pub mod fault;
pub mod frame;
pub mod frame_laws;
pub mod lifecycle;
pub mod manager;
pub mod runtime;
pub mod startup;
pub mod swapchain;
pub mod tracking;
pub mod webxr;
