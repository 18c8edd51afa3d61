use wayland_window_state::configure::{Configure, DecorationMode, StateFlags, SuggestedBounds};
use wayland_window_state::dpi::{LogicalSize, PhysicalSize, Size};
use wayland_window_state::frame::FrameMetrics;
use wayland_window_state::requests::{Request, WindowEvent};
use wayland_window_state::window::{Capabilities, CsdSupport, WindowState};
use wayland_window_state::FrameCallbackState;

fn caps(csd: CsdSupport) -> Capabilities {
    Capabilities {
        viewport: false,
        fractional_scale: false,
        pointer_constraints: false,
        blur_manager: false,
        csd,
    }
}

fn metrics() -> FrameMetrics {
    FrameMetrics { left: 5, right: 5, top: 30, bottom: 5 }
}

fn flags() -> StateFlags {
    StateFlags {
        maximized: false,
        fullscreen: false,
        tiled: false,
        suspended: false,
        activated: false,
    }
}

fn plain_configure(width: u32, height: u32) -> Configure {
    Configure {
        new_width: Some(width),
        new_height: Some(height),
        state: flags(),
        decoration_mode: DecorationMode::Client,
        suggested_bounds: None,
    }
}

fn xdg(csd: CsdSupport) -> WindowState {
    WindowState::new_xdg(
        caps(csd),
        Size::Logical(LogicalSize { width: 300, height: 200 }),
        None,
    )
}

#[test]
fn explicit_size_subtracts_borders() {
    let mut w = xdg(CsdSupport::Available { metrics: metrics(), themed: true });
    let mut events = Vec::new();
    let mut requests = Vec::new();
    let redraw = w.configure_xdg(plain_configure(400, 300), &mut events, &mut requests);
    assert!(redraw);
    assert_eq!(w.inner_size(), LogicalSize { width: 390, height: 265 });
    assert_eq!(w.outer_size(), LogicalSize { width: 400, height: 300 });
}

#[test]
fn explicit_size_without_frame_is_kept() {
    let mut w = xdg(CsdSupport::Unavailable);
    let mut events = Vec::new();
    let mut requests = Vec::new();
    let redraw = w.configure_xdg(plain_configure(400, 300), &mut events, &mut requests);
    assert!(redraw);
    assert_eq!(w.inner_size(), LogicalSize { width: 400, height: 300 });
    assert_eq!(w.outer_size(), LogicalSize { width: 400, height: 300 });
}

#[test]
fn tiny_explicit_size_clamps_to_one() {
    let mut w = xdg(CsdSupport::Available { metrics: metrics(), themed: true });
    let mut events = Vec::new();
    let mut requests = Vec::new();
    // Width 8 is swallowed by the 10 units of side borders; height keeps 1.
    w.configure_xdg(plain_configure(8, 31), &mut events, &mut requests);
    assert_eq!(w.inner_size(), LogicalSize { width: 1, height: 1 });
}

#[test]
fn second_identical_configure_reports_no_redraw() {
    let mut w = xdg(CsdSupport::Unavailable);
    let mut events = Vec::new();
    let mut requests = Vec::new();
    let first = w.configure_xdg(plain_configure(400, 300), &mut events, &mut requests);
    assert!(first);
    let second = w.configure_xdg(plain_configure(400, 300), &mut events, &mut requests);
    assert!(!second);
}

#[test]
fn activation_change_alone_means_no_redraw() {
    let mut w = xdg(CsdSupport::Unavailable);
    let mut events = Vec::new();
    let mut requests = Vec::new();
    w.configure_xdg(plain_configure(400, 300), &mut events, &mut requests);
    let mut c = plain_configure(400, 300);
    c.state.activated = true;
    assert!(!w.configure_xdg(c, &mut events, &mut requests));
}

#[test]
fn maximize_change_forces_redraw() {
    let mut w = xdg(CsdSupport::Unavailable);
    let mut events = Vec::new();
    let mut requests = Vec::new();
    w.configure_xdg(plain_configure(400, 300), &mut events, &mut requests);
    let mut c = plain_configure(400, 300);
    c.state.maximized = true;
    assert!(w.configure_xdg(c, &mut events, &mut requests));
    assert!(w.is_maximized());
    assert!(!w.is_fullscreen());
}

#[test]
fn occluded_emitted_exactly_on_suspension_change() {
    let mut w = xdg(CsdSupport::Unavailable);
    let mut events = Vec::new();
    let mut requests = Vec::new();

    w.configure_xdg(plain_configure(400, 300), &mut events, &mut requests);
    assert_eq!(events, vec![]);

    let mut c = plain_configure(400, 300);
    c.state.suspended = true;
    w.configure_xdg(c, &mut events, &mut requests);
    assert_eq!(events, vec![WindowEvent::Occluded(true)]);

    // A repeat of the same suspended value emits nothing.
    w.configure_xdg(c, &mut events, &mut requests);
    assert_eq!(events, vec![WindowEvent::Occluded(true)]);

    w.configure_xdg(plain_configure(400, 300), &mut events, &mut requests);
    assert_eq!(
        events,
        vec![WindowEvent::Occluded(true), WindowEvent::Occluded(false)]
    );
}

#[test]
fn frame_creation_attempted_exactly_once_when_failing() {
    let mut w = xdg(CsdSupport::Failing);
    let mut events = Vec::new();
    let mut requests = Vec::new();
    assert_eq!(w.frame_creation_attempts(), 0);
    w.configure_xdg(plain_configure(400, 300), &mut events, &mut requests);
    assert_eq!(w.frame_creation_attempts(), 1);
    // The sticky flag keeps an identical configure from retrying.
    w.configure_xdg(plain_configure(400, 300), &mut events, &mut requests);
    assert_eq!(w.frame_creation_attempts(), 1);
    // Without a client-side frame the compositor is assumed to decorate.
    assert!(w.is_decorated());
}

#[test]
fn frame_creation_succeeds_once_and_stays() {
    let mut w = xdg(CsdSupport::Available { metrics: metrics(), themed: true });
    let mut events = Vec::new();
    let mut requests = Vec::new();
    w.configure_xdg(plain_configure(400, 300), &mut events, &mut requests);
    assert_eq!(w.frame_creation_attempts(), 1);
    w.configure_xdg(plain_configure(400, 300), &mut events, &mut requests);
    assert_eq!(w.frame_creation_attempts(), 1);
    assert!(w.is_decorated());
}

#[test]
fn server_mode_drops_the_frame() {
    let mut w = xdg(CsdSupport::Available { metrics: metrics(), themed: true });
    let mut events = Vec::new();
    let mut requests = Vec::new();
    w.configure_xdg(plain_configure(400, 300), &mut events, &mut requests);
    assert_eq!(w.inner_size(), LogicalSize { width: 390, height: 265 });

    let mut c = plain_configure(400, 300);
    c.decoration_mode = DecorationMode::Server;
    w.configure_xdg(c, &mut events, &mut requests);
    // Without the frame the compositor size is taken as-is, and the
    // decorations are the compositor's business now.
    assert_eq!(w.inner_size(), LogicalSize { width: 400, height: 300 });
    assert!(w.is_decorated());
}

#[test]
fn stateless_fallback_used_when_no_size_given() {
    let mut w = xdg(CsdSupport::Unavailable);
    let mut events = Vec::new();
    let mut requests = Vec::new();
    let c = Configure {
        new_width: None,
        new_height: None,
        state: flags(),
        decoration_mode: DecorationMode::Server,
        suggested_bounds: None,
    };
    let redraw = w.configure_xdg(c, &mut events, &mut requests);
    // The first configure always resizes, to the seeded initial size.
    assert!(redraw);
    assert_eq!(w.inner_size(), LogicalSize { width: 300, height: 200 });
}

#[test]
fn suggested_bounds_clamp_only_without_explicit_size() {
    let mut w = xdg(CsdSupport::Unavailable);
    let mut events = Vec::new();
    let mut requests = Vec::new();
    let mut c = Configure {
        new_width: None,
        new_height: None,
        state: flags(),
        decoration_mode: DecorationMode::Server,
        suggested_bounds: Some(SuggestedBounds { width: 250, height: 0 }),
    };
    w.configure_xdg(c, &mut events, &mut requests);
    // The 300 wide fallback is clamped to the 250 bound; the zero height
    // bound means no bound.
    assert_eq!(w.inner_size(), LogicalSize { width: 250, height: 200 });

    c.new_width = Some(400);
    c.new_height = Some(300);
    w.configure_xdg(c, &mut events, &mut requests);
    // An explicit compositor size is never clamped.
    assert_eq!(w.inner_size(), LogicalSize { width: 400, height: 300 });
}

#[test]
fn resize_reissues_geometry_and_opacity() {
    let mut w = xdg(CsdSupport::Unavailable);
    let mut events = Vec::new();
    let mut requests = Vec::new();
    w.configure_xdg(plain_configure(400, 300), &mut events, &mut requests);
    assert_eq!(
        requests,
        vec![
            Request::SetOpaqueRegionFull,
            Request::SetWindowGeometry { x: 0, y: 0, width: 400, height: 300 },
        ]
    );
}

#[test]
fn resize_with_frame_offsets_geometry_by_borders() {
    let mut w = xdg(CsdSupport::Available { metrics: metrics(), themed: true });
    let mut events = Vec::new();
    let mut requests = Vec::new();
    w.configure_xdg(plain_configure(400, 300), &mut events, &mut requests);
    assert_eq!(
        requests,
        vec![
            Request::SetOpaqueRegionFull,
            Request::SetWindowGeometry { x: -5, y: -30, width: 400, height: 300 },
        ]
    );
}

#[test]
fn viewport_destination_follows_inner_size() {
    let mut c = caps(CsdSupport::Unavailable);
    c.viewport = true;
    let mut w = WindowState::new_xdg(
        c,
        Size::Logical(LogicalSize { width: 300, height: 200 }),
        None,
    );
    let mut events = Vec::new();
    let mut requests = Vec::new();
    w.configure_xdg(plain_configure(400, 300), &mut events, &mut requests);
    assert_eq!(
        requests,
        vec![
            Request::SetOpaqueRegionFull,
            Request::SetWindowGeometry { x: 0, y: 0, width: 400, height: 300 },
            Request::SetViewportDestination { width: 400, height: 300 },
        ]
    );
}

#[test]
fn physical_initial_size_honored_at_current_scale() {
    let mut w = WindowState::new_xdg(
        caps(CsdSupport::Unavailable),
        Size::Physical(PhysicalSize { width: 600, height: 400 }),
        None,
    );
    let mut requests = Vec::new();
    // Scale factor two arrives before the first configure.
    w.set_scale_factor(240, &mut requests);
    let mut events = Vec::new();
    requests.clear();
    let c = Configure {
        new_width: None,
        new_height: None,
        state: flags(),
        decoration_mode: DecorationMode::Server,
        suggested_bounds: None,
    };
    w.configure_xdg(c, &mut events, &mut requests);
    assert_eq!(w.inner_size(), LogicalSize { width: 300, height: 200 });
}

#[test]
fn request_inner_size_honored_only_while_stateless() {
    let mut w = xdg(CsdSupport::Unavailable);
    let mut events = Vec::new();
    let mut requests = Vec::new();
    w.configure_xdg(plain_configure(400, 300), &mut events, &mut requests);

    let got = w.request_inner_size(
        Size::Logical(LogicalSize { width: 500, height: 320 }),
        &mut requests,
    );
    assert_eq!(got, PhysicalSize { width: 500, height: 320 });
    assert_eq!(w.inner_size(), LogicalSize { width: 500, height: 320 });

    let mut c = plain_configure(640, 480);
    c.state.maximized = true;
    w.configure_xdg(c, &mut events, &mut requests);
    let got = w.request_inner_size(
        Size::Logical(LogicalSize { width: 111, height: 222 }),
        &mut requests,
    );
    // Maximized windows do not follow user resizes.
    assert_eq!(got, PhysicalSize { width: 640, height: 480 });
    assert_eq!(w.inner_size(), LogicalSize { width: 640, height: 480 });
}

#[test]
fn frame_callback_cycle_is_linear() {
    let mut w = xdg(CsdSupport::Unavailable);
    let mut requests = Vec::new();
    assert_eq!(w.frame_callback_state(), FrameCallbackState::Idle);

    w.request_frame_callback(&mut requests);
    assert_eq!(w.frame_callback_state(), FrameCallbackState::Requested);
    assert_eq!(requests, vec![Request::FrameCallback]);

    // A second request while one is in flight does nothing.
    w.request_frame_callback(&mut requests);
    assert_eq!(requests, vec![Request::FrameCallback]);

    w.frame_callback_received();
    assert_eq!(w.frame_callback_state(), FrameCallbackState::Received);

    w.frame_callback_reset();
    assert_eq!(w.frame_callback_state(), FrameCallbackState::Idle);
}

#[test]
fn is_configured_flips_on_first_configure() {
    let mut w = xdg(CsdSupport::Unavailable);
    assert!(!w.is_configured());
    let mut events = Vec::new();
    let mut requests = Vec::new();
    w.configure_xdg(plain_configure(400, 300), &mut events, &mut requests);
    assert!(w.is_configured());
}
