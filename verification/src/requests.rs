//! Protocol requests and lifecycle events emitted by the window state.
//!
//! The state machine never talks to the compositor itself: each operation
//! appends the requests it wants performed, in order, and the surrounding
//! program sends them.  Requests that carry a pointer or text-input refer to
//! the device by its stable identifier.
use vstd::prelude::*;

use crate::configure::DecorationMode;
use crate::cursor::CursorIcon;
use crate::frame::ResizeEdge;
use crate::ImePurpose;

verus! {

/// One protocol request, ready to be sent by the surrounding program.
#[derive(Debug, Clone, Copy, PartialEq, Eq, Structural)]
pub enum Request {
    /// Set the window geometry of the top-level surface; `x` and `y` are
    /// the frame offset, the size includes the decoration borders.
    SetWindowGeometry { x: i32, y: i32, width: u32, height: u32 },
    /// Set the size of the layer surface.
    SetLayerSize { width: u32, height: u32 },
    /// Mark the whole surface opaque.
    SetOpaqueRegionFull,
    /// Clear the opaque region, for a transparent window.
    ClearOpaqueRegion,
    /// Point the fractional-scale viewport at the inner size.
    SetViewportDestination { width: u32, height: u32 },
    /// Ask the compositor for a frame callback.
    FrameCallback,
    /// Publish the minimum inner size hint, borders included.
    SetMinSize { width: u32, height: u32 },
    /// Publish the maximum inner size hint, borders included.
    SetMaxSize { width: u32, height: u32 },
    /// Withdraw the maximum size hint.
    UnsetMaxSize,
    /// Ask the compositor for the given decoration mode.
    RequestDecorationMode { mode: DecorationMode },
    /// Push the stored window title to the compositor.
    SetWindowTitle,
    /// Set the integer buffer scale on the surface.
    SetBufferScale { scale: u32 },
    /// Minimize the window.
    SetMinimized,
    /// Maximize the window.
    SetMaximized,
    /// Leave the maximized state.
    UnsetMaximized,
    /// Start an interactive resize justified by the given input serial.
    ResizeWithSerial { serial: u32, edge: ResizeEdge },
    /// Start an interactive move justified by the given input serial.
    MoveWithSerial { serial: u32 },
    /// Show the window menu justified by the given input serial.
    ShowMenuWithSerial { serial: u32, x: i32, y: i32 },
    /// Start an interactive resize on behalf of the given pointer, with
    /// whatever serial that pointer last produced.
    ResizeWithPointer { pointer: u64, edge: ResizeEdge },
    /// Start an interactive move on behalf of the given pointer.
    MoveWithPointer { pointer: u64 },
    /// Show the window menu on behalf of the given pointer.
    ShowMenuWithPointer { pointer: u64, x: i32, y: i32 },
    /// Release a pointer confinement.
    UnconfinePointer { pointer: u64 },
    /// Release a pointer lock.
    UnlockPointer { pointer: u64 },
    /// Lock the pointer in place.
    LockPointer { pointer: u64 },
    /// Confine the pointer to the surface.
    ConfinePointer { pointer: u64 },
    /// Move a locked pointer to the given position.
    SetLockedCursorPosition { pointer: u64, x: i32, y: i32 },
    /// Show a named cursor on the pointer.
    SetCursor { pointer: u64, icon: CursorIcon },
    /// Show no cursor at all on the pointer.
    HideCursor { pointer: u64 },
    /// Set the buffer scale of the pointer's cursor surface.
    SetCursorSurfaceScale { pointer: u64, cursor_scale: i32 },
    /// Attach the custom cursor buffer to the pointer's cursor surface.
    AttachCursorBuffer { pointer: u64 },
    /// Damage the cursor buffer, in buffer coordinates.
    DamageCursorBuffer { pointer: u64, buffer_width: i32, buffer_height: i32 },
    /// Damage the cursor surface, in surface coordinates.
    DamageCursorSurface { pointer: u64, surface_width: i32, surface_height: i32 },
    /// Commit the pointer's cursor surface.
    CommitCursorSurface { pointer: u64 },
    /// Point the pointer at its cursor surface with the given hotspot.
    SetPointerCursorSurface { pointer: u64, hotspot_x: i32, hotspot_y: i32 },
    /// Enable a text input.
    TextInputEnable { text_input: u32 },
    /// Disable a text input.
    TextInputDisable { text_input: u32 },
    /// Tell a text input what it is used for.
    TextInputSetContentType { text_input: u32, purpose: ImePurpose },
    /// Tell a text input where the cursor rectangle is.
    TextInputSetCursorRectangle { text_input: u32, x: i32, y: i32, rect_width: i32, rect_height: i32 },
    /// Commit the pending text-input state.
    TextInputCommit { text_input: u32 },
    /// Create a blur object for the surface and commit it.
    CreateBlur,
    /// Commit the created blur object.
    CommitBlur,
    /// Remove the blur from the surface.
    UnsetBlur,
    /// Release the blur object.
    ReleaseBlur,
}

/// A lifecycle event handed up to the event sink.
#[derive(Debug, Clone, Copy, PartialEq, Eq, Structural)]
pub enum WindowEvent {
    /// The suspended state of the window changed.
    Occluded(bool),
    /// The user asked to close the window through the decorations.
    CloseRequested,
}

/// A typed error surfaced to the caller; nothing in this state machine is
/// fatal.
#[derive(Debug, Clone, Copy, PartialEq, Eq, Structural)]
pub enum ExternalError {
    /// The requested capability has no backing protocol or manager.
    NotSupported,
    /// The operation's preconditions are not met.
    InvalidState,
}

} // verus!
