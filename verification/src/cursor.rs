//! Cursor selection, custom cursor images, and pointer-grab state.
use vstd::prelude::*;

verus! {

/// A named cursor icon.
#[derive(Debug, Clone, Copy, PartialEq, Eq, Structural)]
pub enum CursorIcon {
    Default,
    ContextMenu,
    Pointer,
    Text,
    Wait,
    Grab,
    Grabbing,
    EResize,
    NResize,
    NeResize,
    NwResize,
    SResize,
    SeResize,
    SwResize,
    WResize,
}

/// A custom cursor image rendered into the shared cursor pool.
///
/// The state only keeps the buffer geometry; the pixels live in the pool
/// owned by the surrounding program.
#[derive(Debug, Clone, Copy, PartialEq, Eq, Structural)]
pub struct CustomCursor {
    pub width: i32,
    pub height: i32,
    pub hotspot_x: i32,
    pub hotspot_y: i32,
}

impl CustomCursor {
    /// Buffer geometry never goes negative.
    pub open spec fn wf(&self) -> bool {
        &&& self.width >= 0
        &&& self.height >= 0
        &&& self.hotspot_x >= 0
        &&& self.hotspot_y >= 0
    }
}

/// The cursor the user selected; visibility is tracked separately.
#[derive(Debug, Clone, Copy, PartialEq, Eq, Structural)]
pub enum SelectedCursor {
    Named(CursorIcon),
    Custom(CustomCursor),
}

impl Default for SelectedCursor {
    fn default() -> (r: Self)
        ensures
            r == SelectedCursor::Named(CursorIcon::Default),
    {
        SelectedCursor::Named(CursorIcon::Default)
    }
}

/// How the pointer is grabbed.
#[derive(Debug, Clone, Copy, PartialEq, Eq, Structural)]
pub enum CursorGrabMode {
    /// No grab: the pointer moves freely.
    Free,
    /// The pointer is confined to the surface.
    Confined,
    /// The pointer is locked in place.
    Locked,
}

/// The state of the cursor grabs.
#[derive(Debug, Clone, Copy, PartialEq, Eq, Structural)]
pub struct GrabState {
    /// The grab mode requested by the user.
    pub user_grab_mode: CursorGrabMode,

    /// The grab mode the pointer devices have actually been told.
    pub current_grab_mode: CursorGrabMode,
}

impl GrabState {
    pub fn new() -> (g: GrabState)
        ensures
            g.user_grab_mode == CursorGrabMode::Free,
            g.current_grab_mode == CursorGrabMode::Free,
    {
        GrabState { user_grab_mode: CursorGrabMode::Free, current_grab_mode: CursorGrabMode::Free }
    }
}

/// A pointer device observed on the window, held by a stable identifier
/// rather than by the device itself; the surrounding program drops entries
/// whose device has gone away.
#[derive(Debug, Clone, Copy, PartialEq, Eq, Structural)]
pub struct PointerEntry {
    /// The stable identifier of the device.
    pub id: u64,

    /// The output scale of the cursor surface bound to this pointer.
    pub surface_scale: i32,

    /// The negotiated version of the cursor surface protocol.
    pub surface_version: u32,
}

impl PointerEntry {
    /// The cursor surface scale is always positive.
    pub open spec fn wf(&self) -> bool {
        self.surface_scale >= 1
    }
}

} // verus!
