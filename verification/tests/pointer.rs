use wayland_window_state::cursor::{CursorGrabMode, CursorIcon, CustomCursor, PointerEntry};
use wayland_window_state::dpi::{LogicalSize, Size};
use wayland_window_state::requests::{ExternalError, Request};
use wayland_window_state::window::{Capabilities, CsdSupport, WindowState};

fn xdg(pointer_constraints: bool) -> WindowState {
    WindowState::new_xdg(
        Capabilities {
            viewport: false,
            fractional_scale: false,
            pointer_constraints,
            blur_manager: false,
            csd: CsdSupport::Unavailable,
        },
        Size::Logical(LogicalSize { width: 300, height: 200 }),
        None,
    )
}

fn pointer(id: u64) -> PointerEntry {
    PointerEntry { id, surface_scale: 1, surface_version: 6 }
}

fn with_pointers(pointer_constraints: bool) -> WindowState {
    let mut w = xdg(pointer_constraints);
    let mut requests = Vec::new();
    w.pointer_entered(pointer(1), &mut requests);
    w.pointer_entered(pointer(2), &mut requests);
    w
}

#[test]
fn grab_without_constraints_is_not_supported() {
    let mut w = with_pointers(false);
    let mut requests = Vec::new();
    let r = w.set_cursor_grab(CursorGrabMode::Locked, &mut requests);
    assert_eq!(r, Err(ExternalError::NotSupported));
    assert_eq!(requests, vec![]);
    // Releasing the grab always succeeds, even without the service.
    let r = w.set_cursor_grab(CursorGrabMode::Free, &mut requests);
    assert_eq!(r, Ok(()));
    assert_eq!(requests, vec![]);
}

#[test]
fn locking_releases_prior_confinement_first() {
    let mut w = with_pointers(true);
    let mut requests = Vec::new();
    assert_eq!(w.set_cursor_grab(CursorGrabMode::Confined, &mut requests), Ok(()));
    requests.clear();
    assert_eq!(w.set_cursor_grab(CursorGrabMode::Locked, &mut requests), Ok(()));
    assert_eq!(
        requests,
        vec![
            Request::UnconfinePointer { pointer: 1 },
            Request::UnconfinePointer { pointer: 2 },
            Request::LockPointer { pointer: 1 },
            Request::LockPointer { pointer: 2 },
        ]
    );
}

#[test]
fn cursor_position_needs_applied_lock() {
    let mut w = with_pointers(true);
    let mut requests = Vec::new();

    // Not locked yet: the precondition is unmet.
    assert_eq!(w.set_cursor_position(10, 20, &mut requests), Err(ExternalError::InvalidState));

    w.set_cursor_grab(CursorGrabMode::Confined, &mut requests).unwrap();
    assert_eq!(w.set_cursor_position(10, 20, &mut requests), Err(ExternalError::InvalidState));

    w.set_cursor_grab(CursorGrabMode::Locked, &mut requests).unwrap();
    requests.clear();
    assert_eq!(w.set_cursor_position(10, 20, &mut requests), Ok(()));
    assert_eq!(
        requests,
        vec![
            Request::SetLockedCursorPosition { pointer: 1, x: 10, y: 20 },
            Request::SetLockedCursorPosition { pointer: 2, x: 10, y: 20 },
        ]
    );
}

#[test]
fn cursor_position_without_constraints_is_not_supported() {
    let w = with_pointers(false);
    let mut requests = Vec::new();
    assert_eq!(w.set_cursor_position(10, 20, &mut requests), Err(ExternalError::NotSupported));
}

#[test]
fn hiding_cursor_clears_every_pointer() {
    let mut w = with_pointers(false);
    let mut requests = Vec::new();
    w.set_cursor_visible(false, &mut requests);
    assert_eq!(
        requests,
        vec![
            Request::HideCursor { pointer: 1 },
            Request::HideCursor { pointer: 2 },
        ]
    );

    // While hidden, a selection is remembered but not shown.
    requests.clear();
    w.set_cursor(CursorIcon::Text, &mut requests);
    assert_eq!(requests, vec![]);

    // Showing again reapplies the selected cursor.
    w.set_cursor_visible(true, &mut requests);
    assert_eq!(
        requests,
        vec![
            Request::SetCursor { pointer: 1, icon: CursorIcon::Text },
            Request::SetCursor { pointer: 2, icon: CursorIcon::Text },
        ]
    );
}

#[test]
fn custom_cursor_damages_buffer_on_new_surfaces() {
    let mut w = xdg(false);
    let mut requests = Vec::new();
    w.pointer_entered(pointer(1), &mut requests);
    requests.clear();
    let cursor = CustomCursor { width: 32, height: 32, hotspot_x: 8, hotspot_y: 4 };
    w.set_custom_cursor(cursor, &mut requests);
    assert_eq!(
        requests,
        vec![
            Request::SetCursorSurfaceScale { pointer: 1, cursor_scale: 1 },
            Request::AttachCursorBuffer { pointer: 1 },
            Request::DamageCursorBuffer { pointer: 1, buffer_width: 32, buffer_height: 32 },
            Request::CommitCursorSurface { pointer: 1 },
            Request::SetPointerCursorSurface { pointer: 1, hotspot_x: 8, hotspot_y: 4 },
        ]
    );
}

#[test]
fn custom_cursor_damages_surface_on_old_surfaces() {
    let mut w = xdg(false);
    let mut requests = Vec::new();
    // An old protocol version with an output scale of two.
    w.pointer_entered(
        PointerEntry { id: 7, surface_scale: 2, surface_version: 3 },
        &mut requests,
    );
    requests.clear();
    let cursor = CustomCursor { width: 32, height: 32, hotspot_x: 8, hotspot_y: 4 };
    w.set_custom_cursor(cursor, &mut requests);
    assert_eq!(
        requests,
        vec![
            Request::SetCursorSurfaceScale { pointer: 7, cursor_scale: 2 },
            Request::AttachCursorBuffer { pointer: 7 },
            Request::DamageCursorSurface { pointer: 7, surface_width: 16, surface_height: 16 },
            Request::CommitCursorSurface { pointer: 7 },
            Request::SetPointerCursorSurface { pointer: 7, hotspot_x: 4, hotspot_y: 2 },
        ]
    );
}

#[test]
fn entering_pointer_restyles_and_regrabs() {
    let mut w = xdg(true);
    let mut requests = Vec::new();
    w.set_cursor_grab(CursorGrabMode::Locked, &mut requests).unwrap();
    requests.clear();
    w.pointer_entered(pointer(3), &mut requests);
    assert_eq!(
        requests,
        vec![
            Request::SetCursor { pointer: 3, icon: CursorIcon::Default },
            Request::UnlockPointer { pointer: 3 },
            Request::LockPointer { pointer: 3 },
        ]
    );
}

#[test]
fn leaving_pointer_drops_its_entry() {
    let mut w = with_pointers(false);
    w.pointer_left(1);
    let mut requests = Vec::new();
    w.set_cursor_visible(false, &mut requests);
    assert_eq!(requests, vec![Request::HideCursor { pointer: 2 }]);
}
