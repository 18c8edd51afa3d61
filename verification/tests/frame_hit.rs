use wayland_window_state::configure::{Configure, DecorationMode, StateFlags};
use wayland_window_state::cursor::{CursorIcon, PointerEntry};
use wayland_window_state::dpi::{LogicalPosition, LogicalSize, Size};
use wayland_window_state::frame::{FrameClick, FrameMetrics, ResizeEdge};
use wayland_window_state::requests::{Request, WindowEvent};
use wayland_window_state::window::{Capabilities, CsdSupport, WindowState};
use wayland_window_state::ResizeDirection;

fn decorated_window() -> WindowState {
    let mut w = WindowState::new_xdg(
        Capabilities {
            viewport: false,
            fractional_scale: false,
            pointer_constraints: false,
            blur_manager: false,
            csd: CsdSupport::Available {
                metrics: FrameMetrics { left: 5, right: 5, top: 30, bottom: 5 },
                themed: true,
            },
        },
        Size::Logical(LogicalSize { width: 300, height: 200 }),
        None,
    );
    let mut events = Vec::new();
    let mut requests = Vec::new();
    let c = Configure {
        new_width: Some(400),
        new_height: Some(300),
        state: StateFlags {
            maximized: false,
            fullscreen: false,
            tiled: false,
            suspended: false,
            activated: true,
        },
        decoration_mode: DecorationMode::Client,
        suggested_bounds: None,
    };
    w.configure_xdg(c, &mut events, &mut requests);
    // Inner 390 by 265; outer 400 by 300.
    w
}

#[test]
fn top_strip_resizes_and_corners_grab_diagonals() {
    let mut w = decorated_window();
    let mut requests = Vec::new();
    assert_eq!(
        w.frame_point_moved(0, 2, 2, &mut requests),
        Some(CursorIcon::NwResize)
    );
    assert_eq!(
        w.frame_point_moved(0, 200, 2, &mut requests),
        Some(CursorIcon::NResize)
    );
    assert_eq!(
        w.frame_point_moved(0, 396, 2, &mut requests),
        Some(CursorIcon::NeResize)
    );
    assert_eq!(
        w.frame_point_moved(0, 2, 150, &mut requests),
        Some(CursorIcon::WResize)
    );
    assert_eq!(
        w.frame_point_moved(0, 200, 298, &mut requests),
        Some(CursorIcon::SResize)
    );
    assert_eq!(requests, vec![]);
}

#[test]
fn content_area_shows_no_frame_cursor() {
    let mut w = decorated_window();
    let mut requests = Vec::new();
    assert_eq!(w.frame_point_moved(0, 200, 100, &mut requests), None);
}

#[test]
fn header_click_starts_a_move_on_next_motion() {
    let mut w = decorated_window();
    let mut events = Vec::new();
    let mut requests = Vec::new();
    // Move over the header, press, and move again: the press leaves a
    // pending serial that the next motion over the decorations turns into
    // an interactive move.
    w.frame_point_moved(0, 200, 10, &mut requests);
    let r = w.frame_click(FrameClick::Normal, true, 77, 0, &mut events, &mut requests);
    assert_eq!(r, Some(false));
    assert_eq!(requests, vec![]);
    assert_eq!(w.frame_point_moved(1, 201, 10, &mut requests), None);
    assert_eq!(requests, vec![Request::MoveWithSerial { serial: 77 }]);

    // The serial does not stick around.
    requests.clear();
    assert_eq!(
        w.frame_point_moved(2, 202, 10, &mut requests),
        Some(CursorIcon::Default)
    );
    assert_eq!(requests, vec![]);
}

#[test]
fn close_button_raises_a_close_event() {
    let mut w = decorated_window();
    let mut events = Vec::new();
    let mut requests = Vec::new();
    w.frame_point_moved(0, 380, 10, &mut requests);
    let r = w.frame_click(FrameClick::Normal, true, 5, 0, &mut events, &mut requests);
    assert_eq!(r, Some(false));
    assert_eq!(events, vec![WindowEvent::CloseRequested]);
    assert_eq!(requests, vec![]);
}

#[test]
fn maximize_button_toggles_with_window_state() {
    let mut w = decorated_window();
    let mut events = Vec::new();
    let mut requests = Vec::new();
    w.frame_point_moved(0, 340, 10, &mut requests);
    w.frame_click(FrameClick::Normal, true, 5, 0, &mut events, &mut requests);
    assert_eq!(requests, vec![Request::SetMaximized]);

    // Once the compositor reports the window maximized, the same button
    // asks to leave that state.
    let c = Configure {
        new_width: Some(400),
        new_height: Some(300),
        state: StateFlags {
            maximized: true,
            fullscreen: false,
            tiled: false,
            suspended: false,
            activated: true,
        },
        decoration_mode: DecorationMode::Client,
        suggested_bounds: None,
    };
    w.configure_xdg(c, &mut events, &mut requests);
    requests.clear();
    events.clear();
    w.frame_point_moved(0, 340, 10, &mut requests);
    w.frame_click(FrameClick::Normal, true, 6, 0, &mut events, &mut requests);
    assert_eq!(requests, vec![Request::UnsetMaximized]);
}

#[test]
fn edge_press_starts_an_interactive_resize() {
    let mut w = decorated_window();
    let mut events = Vec::new();
    let mut requests = Vec::new();
    w.frame_point_moved(0, 2, 150, &mut requests);
    w.frame_click(FrameClick::Normal, true, 9, 0, &mut events, &mut requests);
    assert_eq!(
        requests,
        vec![Request::ResizeWithSerial { serial: 9, edge: ResizeEdge::Left }]
    );
}

#[test]
fn unresizable_frame_ignores_edge_presses() {
    let mut w = decorated_window();
    let mut events = Vec::new();
    let mut requests = Vec::new();
    w.set_resizable(false, &mut requests);
    requests.clear();
    assert_eq!(
        w.frame_point_moved(0, 2, 150, &mut requests),
        Some(CursorIcon::Default)
    );
    let r = w.frame_click(FrameClick::Normal, true, 9, 0, &mut events, &mut requests);
    assert_eq!(r, None);
    assert_eq!(requests, vec![]);
}

#[test]
fn alternate_header_click_shows_the_menu() {
    let mut w = decorated_window();
    let mut events = Vec::new();
    let mut requests = Vec::new();
    w.frame_point_moved(0, 200, 10, &mut requests);
    w.frame_click(FrameClick::Alternate, true, 3, 0, &mut events, &mut requests);
    assert_eq!(
        requests,
        vec![Request::ShowMenuWithSerial { serial: 3, x: 200, y: 10 }]
    );
}

#[test]
fn point_left_forgets_the_position() {
    let mut w = decorated_window();
    let mut events = Vec::new();
    let mut requests = Vec::new();
    w.frame_point_moved(0, 200, 10, &mut requests);
    w.frame_point_left();
    let r = w.frame_click(FrameClick::Normal, true, 4, 0, &mut events, &mut requests);
    assert_eq!(r, None);
}

#[test]
fn refresh_frame_draws_once() {
    let mut w = decorated_window();
    assert!(w.refresh_frame());
    // The frame is clean until something dirties it again.
    assert!(!w.refresh_frame());
}

#[test]
fn drag_operations_go_through_every_pointer() {
    let mut w = decorated_window();
    let mut requests = Vec::new();
    w.pointer_entered(
        PointerEntry { id: 4, surface_scale: 1, surface_version: 6 },
        &mut requests,
    );
    requests.clear();

    assert_eq!(w.drag_window(&mut requests), Ok(()));
    assert_eq!(requests, vec![Request::MoveWithPointer { pointer: 4 }]);

    requests.clear();
    assert_eq!(
        w.drag_resize_window(ResizeDirection::SouthEast, &mut requests),
        Ok(())
    );
    assert_eq!(
        requests,
        vec![Request::ResizeWithPointer { pointer: 4, edge: ResizeEdge::BottomRight }]
    );

    requests.clear();
    w.show_window_menu(LogicalPosition { x: 50, y: 60 }, &mut requests);
    assert_eq!(
        requests,
        vec![Request::ShowMenuWithPointer { pointer: 4, x: 50, y: 60 }]
    );
}
