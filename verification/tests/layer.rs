use wayland_window_state::configure::LayerConfigure;
use wayland_window_state::dpi::{LogicalSize, Size};
use wayland_window_state::requests::Request;
use wayland_window_state::window::{Capabilities, CsdSupport, WindowState};
use wayland_window_state::FrameCallbackState;

fn layer() -> WindowState {
    WindowState::new_layer(
        Capabilities {
            viewport: false,
            fractional_scale: false,
            pointer_constraints: false,
            blur_manager: false,
            csd: CsdSupport::Unavailable,
        },
        Size::Logical(LogicalSize { width: 300, height: 200 }),
        None,
    )
}

fn configured(width: u32, height: u32) -> WindowState {
    let mut w = layer();
    let mut requests = Vec::new();
    w.configure_layer(LayerConfigure { new_width: width, new_height: height }, &mut requests);
    w
}

#[test]
fn layer_zero_zero_keeps_size() {
    let w = configured(0, 0);
    assert_eq!(w.inner_size(), LogicalSize { width: 300, height: 200 });
}

#[test]
fn layer_zero_width_changes_only_height() {
    let w = configured(0, 150);
    assert_eq!(w.inner_size(), LogicalSize { width: 300, height: 150 });
}

#[test]
fn layer_zero_height_changes_only_width() {
    let w = configured(400, 0);
    assert_eq!(w.inner_size(), LogicalSize { width: 400, height: 200 });
}

#[test]
fn layer_both_axes_set_both() {
    let w = configured(400, 150);
    assert_eq!(w.inner_size(), LogicalSize { width: 400, height: 150 });
}

#[test]
fn layer_configure_always_redraws() {
    let mut w = layer();
    let mut requests = Vec::new();
    let c = LayerConfigure { new_width: 0, new_height: 0 };
    assert!(w.configure_layer(c, &mut requests));
    // Even an unchanged size redraws and re-issues the geometry.
    assert!(w.configure_layer(c, &mut requests));
    assert_eq!(
        requests,
        vec![
            Request::SetOpaqueRegionFull,
            Request::SetLayerSize { width: 300, height: 200 },
            Request::SetOpaqueRegionFull,
            Request::SetLayerSize { width: 300, height: 200 },
        ]
    );
}

#[test]
fn layer_has_no_toplevel_features() {
    let mut w = configured(400, 150);
    assert!(!w.resizable());
    assert!(!w.is_decorated());
    assert!(!w.is_maximized());
    assert!(!w.is_fullscreen());
    assert_eq!(w.theme(), None);
    assert_eq!(w.frame_callback_state(), FrameCallbackState::Idle);
    let mut requests = Vec::new();
    w.request_frame_callback(&mut requests);
    assert_eq!(requests, vec![]);
}
