//! Compositor-driven state for a single Wayland surface.
//!
//! The compositor asynchronously proposes size and state changes through
//! configure events; the window state applies borders, decoration, scaling
//! and resize policy, then records the protocol requests it would send as
//! [`requests::Request`] values for the surrounding program to perform.
pub mod configure;
pub mod cursor;
pub mod dpi;
pub mod frame;
pub mod geometry;
pub mod hints;
pub mod ime;
pub mod interact;
pub mod requests;
pub mod seat;
pub mod title;
pub mod window;

use vstd::prelude::*;

verus! {

/// The theme of the client-side decorations.
#[derive(Debug, Clone, Copy, PartialEq, Eq, Structural)]
pub enum Theme {
    Light,
    Dark,
}

/// What the text input is used for.
#[derive(Debug, Clone, Copy, PartialEq, Eq, Structural)]
pub enum ImePurpose {
    /// No special hints.
    Normal,
    /// The input is a password.
    Password,
    /// The input is a terminal.
    Terminal,
}

/// The direction of an interactive window resize requested by the user.
#[derive(Debug, Clone, Copy, PartialEq, Eq, Structural)]
pub enum ResizeDirection {
    East,
    North,
    NorthEast,
    NorthWest,
    South,
    SouthEast,
    SouthWest,
    West,
}

/// The state of the frame callback.
///
/// The states form a linear cycle: idle, then requested, then received,
/// then idle again; a callback is never re-requested while one is in
/// flight.
#[derive(Default, Debug, Clone, Copy, PartialEq, Eq, Structural)]
pub enum FrameCallbackState {
    /// No frame callback was requested.
    #[default]
    Idle,
    /// The frame callback was requested, but has not yet arrived.
    Requested,
    /// The callback was marked as done, and the user can be told to redraw.
    Received,
}

/// Additional methods on the event-loop target that are specific to Wayland.
pub trait EventLoopWindowTargetExtWayland {
    /// True if the event loop uses Wayland.
    fn is_wayland(&self) -> bool;
}

/// Additional methods on the event-loop builder that are specific to Wayland.
pub trait EventLoopBuilderExtWayland {
    /// Force using Wayland.
    fn with_wayland(&mut self) -> &mut Self;

    /// Whether to allow the event loop to be created off of the main thread.
    fn with_any_thread(&mut self, any_thread: bool) -> &mut Self;
}

/// Additional methods on the window handle that are specific to Wayland.
pub trait WindowExtWayland {}

/// Additional methods on a monitor handle that are specific to Wayland.
pub trait MonitorHandleExtWayland {
    /// Returns the inner identifier of the monitor.
    fn native_id(&self) -> u32;
}

} // verus!
