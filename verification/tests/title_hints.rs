use wayland_window_state::configure::{Configure, DecorationMode, StateFlags};
use wayland_window_state::dpi::{
    logical_to_physical, physical_to_logical, LogicalPosition, LogicalSize, Size,
};
use wayland_window_state::frame::FrameMetrics;
use wayland_window_state::requests::Request;
use wayland_window_state::window::{Capabilities, CsdSupport, WindowState};
use wayland_window_state::{ImePurpose, Theme};

fn caps(csd: CsdSupport, blur_manager: bool) -> Capabilities {
    Capabilities {
        viewport: false,
        fractional_scale: false,
        pointer_constraints: false,
        blur_manager,
        csd,
    }
}

fn metrics() -> FrameMetrics {
    FrameMetrics { left: 5, right: 5, top: 30, bottom: 5 }
}

fn xdg(csd: CsdSupport) -> WindowState {
    WindowState::new_xdg(
        caps(csd, false),
        Size::Logical(LogicalSize { width: 300, height: 200 }),
        None,
    )
}

fn plain_configure(width: u32, height: u32) -> Configure {
    Configure {
        new_width: Some(width),
        new_height: Some(height),
        state: StateFlags {
            maximized: false,
            fullscreen: false,
            tiled: false,
            suspended: false,
            activated: false,
        },
        decoration_mode: DecorationMode::Client,
        suggested_bounds: None,
    }
}

fn decorated_window() -> WindowState {
    let mut w = xdg(CsdSupport::Available { metrics: metrics(), themed: true });
    let mut events = Vec::new();
    let mut requests = Vec::new();
    w.configure_xdg(plain_configure(400, 300), &mut events, &mut requests);
    w
}

#[test]
fn short_title_is_kept_whole() {
    let mut w = xdg(CsdSupport::Unavailable);
    let mut requests = Vec::new();
    w.set_title(String::from("hello"), &mut requests);
    assert_eq!(w.title().as_str(), "hello");
    assert_eq!(requests, vec![Request::SetWindowTitle]);
}

#[test]
fn title_of_exactly_the_limit_is_kept_whole() {
    let mut w = xdg(CsdSupport::Unavailable);
    let mut requests = Vec::new();
    let title: String = std::iter::repeat('a').take(1024).collect();
    w.set_title(title.clone(), &mut requests);
    assert_eq!(w.title().as_str(), title.as_str());
}

#[test]
fn overlong_ascii_title_is_cut_at_the_limit() {
    let mut w = xdg(CsdSupport::Unavailable);
    let mut requests = Vec::new();
    let title: String = std::iter::repeat('a').take(1500).collect();
    w.set_title(title, &mut requests);
    assert_eq!(w.title().len(), 1024);
}

#[test]
fn multibyte_title_is_cut_on_a_character_boundary() {
    let mut w = xdg(CsdSupport::Unavailable);
    let mut requests = Vec::new();
    // 1023 ASCII bytes, then a three-byte character straddling byte 1024.
    let mut title: String = std::iter::repeat('a').take(1023).collect();
    title.push('\u{20ac}');
    assert_eq!(title.len(), 1026);
    w.set_title(title, &mut requests);
    // The cut lands on the boundary before the wide character.
    assert_eq!(w.title().len(), 1023);
    let expected: String = std::iter::repeat('a').take(1023).collect();
    assert_eq!(w.title().as_str(), expected.as_str());
}

#[test]
fn wide_character_title_is_cut_on_a_character_boundary() {
    let mut w = xdg(CsdSupport::Unavailable);
    let mut requests = Vec::new();
    // 342 three-byte characters: 1026 bytes, boundaries at multiples of 3.
    let title: String = std::iter::repeat('\u{20ac}').take(342).collect();
    w.set_title(title, &mut requests);
    assert_eq!(w.title().len(), 1023);
    assert_eq!(w.title().chars().count(), 341);
}

#[test]
fn layer_title_is_stored_but_not_sent() {
    let mut w = WindowState::new_layer(
        caps(CsdSupport::Unavailable, false),
        Size::Logical(LogicalSize { width: 300, height: 200 }),
        None,
    );
    let mut requests = Vec::new();
    w.set_title(String::from("overlay"), &mut requests);
    assert_eq!(w.title().as_str(), "overlay");
    assert_eq!(requests, vec![]);
}

#[test]
fn min_size_hint_includes_borders_and_floor() {
    let mut w = decorated_window();
    let mut requests = Vec::new();
    w.set_min_inner_size(Some(LogicalSize { width: 100, height: 80 }), &mut requests);
    assert_eq!(requests, vec![Request::SetMinSize { width: 110, height: 115 }]);

    requests.clear();
    // A request below the floor is raised to it before the borders go on.
    w.set_min_inner_size(Some(LogicalSize { width: 0, height: 0 }), &mut requests);
    assert_eq!(requests, vec![Request::SetMinSize { width: 12, height: 36 }]);
}

#[test]
fn max_size_hint_includes_borders_or_is_withdrawn() {
    let mut w = decorated_window();
    let mut requests = Vec::new();
    w.set_max_inner_size(Some(LogicalSize { width: 800, height: 600 }), &mut requests);
    assert_eq!(requests, vec![Request::SetMaxSize { width: 810, height: 635 }]);

    requests.clear();
    w.set_max_inner_size(None, &mut requests);
    assert_eq!(requests, vec![Request::UnsetMaxSize]);
}

#[test]
fn clearing_resizable_pins_hints_to_current_size() {
    let mut w = xdg(CsdSupport::Unavailable);
    let mut events = Vec::new();
    let mut requests = Vec::new();
    w.configure_xdg(plain_configure(400, 300), &mut events, &mut requests);
    assert!(w.resizable());

    requests.clear();
    w.set_resizable(false, &mut requests);
    assert!(!w.resizable());
    assert_eq!(
        requests,
        vec![
            Request::SetMinSize { width: 400, height: 300 },
            Request::SetMaxSize { width: 400, height: 300 },
        ]
    );

    // Setting the same value again is a no-op.
    requests.clear();
    w.set_resizable(false, &mut requests);
    assert_eq!(requests, vec![]);
}

#[test]
fn blur_needs_a_manager() {
    let mut w = WindowState::new_xdg(
        caps(CsdSupport::Unavailable, false),
        Size::Logical(LogicalSize { width: 300, height: 200 }),
        None,
    );
    let mut requests = Vec::new();
    w.set_blur(true, &mut requests);
    assert_eq!(requests, vec![]);

    let mut w = WindowState::new_xdg(
        caps(CsdSupport::Unavailable, true),
        Size::Logical(LogicalSize { width: 300, height: 200 }),
        None,
    );
    w.set_blur(true, &mut requests);
    assert_eq!(requests, vec![Request::CreateBlur, Request::CommitBlur]);

    requests.clear();
    // Setting it again changes nothing.
    w.set_blur(true, &mut requests);
    assert_eq!(requests, vec![]);

    w.set_blur(false, &mut requests);
    assert_eq!(requests, vec![Request::UnsetBlur, Request::ReleaseBlur]);
}

#[test]
fn ime_hints_fan_out_to_every_text_input() {
    let mut w = xdg(CsdSupport::Unavailable);
    let mut requests = Vec::new();

    // Nothing is associated yet: not actionable.
    assert!(!w.set_ime_allowed(true, &mut requests));
    assert_eq!(requests, vec![]);
    assert!(w.ime_allowed());

    w.text_input_entered(11);
    w.text_input_entered(12);
    w.text_input_entered(11);  // duplicates are kept out

    assert!(w.set_ime_allowed(true, &mut requests));
    assert_eq!(
        requests,
        vec![
            Request::TextInputEnable { text_input: 11 },
            Request::TextInputSetContentType { text_input: 11, purpose: ImePurpose::Normal },
            Request::TextInputCommit { text_input: 11 },
            Request::TextInputEnable { text_input: 12 },
            Request::TextInputSetContentType { text_input: 12, purpose: ImePurpose::Normal },
            Request::TextInputCommit { text_input: 12 },
        ]
    );

    requests.clear();
    w.set_ime_purpose(ImePurpose::Password, &mut requests);
    assert_eq!(w.ime_purpose(), ImePurpose::Password);
    assert_eq!(
        requests,
        vec![
            Request::TextInputSetContentType { text_input: 11, purpose: ImePurpose::Password },
            Request::TextInputCommit { text_input: 11 },
            Request::TextInputSetContentType { text_input: 12, purpose: ImePurpose::Password },
            Request::TextInputCommit { text_input: 12 },
        ]
    );

    requests.clear();
    w.text_input_left(11);
    w.set_ime_cursor_area(
        LogicalPosition { x: 10, y: 20 },
        LogicalSize { width: 30, height: 40 },
        &mut requests,
    );
    assert_eq!(
        requests,
        vec![
            Request::TextInputSetCursorRectangle {
                text_input: 12,
                x: 10,
                y: 20,
                rect_width: 30,
                rect_height: 40,
            },
            Request::TextInputCommit { text_input: 12 },
        ]
    );

    requests.clear();
    assert!(w.set_ime_allowed(false, &mut requests));
    assert!(!w.ime_allowed());
    assert_eq!(
        requests,
        vec![
            Request::TextInputDisable { text_input: 12 },
            Request::TextInputCommit { text_input: 12 },
        ]
    );
}

#[test]
fn theme_reaches_only_toplevel_windows() {
    let mut w = decorated_window();
    w.set_theme(Some(Theme::Dark));
    assert_eq!(w.theme(), Some(Theme::Dark));

    let mut l = WindowState::new_layer(
        caps(CsdSupport::Unavailable, false),
        Size::Logical(LogicalSize { width: 300, height: 200 }),
        Some(Theme::Light),
    );
    l.set_theme(Some(Theme::Dark));
    assert_eq!(l.theme(), None);
}

#[test]
fn disabling_decorations_requests_client_mode_under_server() {
    let mut w = xdg(CsdSupport::Unavailable);
    let mut events = Vec::new();
    let mut requests = Vec::new();
    let mut c = plain_configure(400, 300);
    c.decoration_mode = DecorationMode::Server;
    w.configure_xdg(c, &mut events, &mut requests);

    requests.clear();
    w.set_decorate(false, &mut requests);
    assert_eq!(
        requests,
        vec![Request::RequestDecorationMode { mode: DecorationMode::Client }]
    );

    requests.clear();
    w.set_decorate(true, &mut requests);
    assert_eq!(
        requests,
        vec![Request::RequestDecorationMode { mode: DecorationMode::Server }]
    );
}

#[test]
fn hiding_decorations_resizes_without_borders() {
    let mut w = decorated_window();
    assert_eq!(w.outer_size(), LogicalSize { width: 400, height: 300 });
    let mut requests = Vec::new();
    w.set_decorate(false, &mut requests);
    // The hidden frame takes no space, so the outer size collapses onto the
    // inner one and the geometry is re-issued without the border offset.
    assert_eq!(w.outer_size(), w.inner_size());
    // The negotiated mode is already client-side, so no mode request goes
    // out; the geometry is simply re-issued without the border offset.
    assert_eq!(
        requests,
        vec![
            Request::SetOpaqueRegionFull,
            Request::SetWindowGeometry { x: 0, y: 0, width: 390, height: 265 },
        ]
    );
    assert!(!w.is_decorated());
}

#[test]
fn scale_factor_pushes_integer_buffer_scale() {
    let mut w = xdg(CsdSupport::Unavailable);
    let mut requests = Vec::new();
    w.set_scale_factor(240, &mut requests);
    assert_eq!(w.scale_factor(), 240);
    assert_eq!(requests, vec![Request::SetBufferScale { scale: 2 }]);
}

#[test]
fn fractional_scale_skips_buffer_scale() {
    let mut c = caps(CsdSupport::Unavailable, false);
    c.fractional_scale = true;
    let mut w = WindowState::new_xdg(
        c,
        Size::Logical(LogicalSize { width: 300, height: 200 }),
        None,
    );
    let mut requests = Vec::new();
    w.set_scale_factor(180, &mut requests);
    assert_eq!(requests, vec![]);
}

#[test]
fn transparency_hint_follows_the_flag() {
    let mut w = xdg(CsdSupport::Unavailable);
    let mut requests = Vec::new();
    w.set_transparent(true, &mut requests);
    assert_eq!(requests, vec![Request::ClearOpaqueRegion]);
    requests.clear();
    w.set_transparent(false, &mut requests);
    assert_eq!(requests, vec![Request::SetOpaqueRegionFull]);
}

#[test]
fn focus_flag_is_stored() {
    let mut w = xdg(CsdSupport::Unavailable);
    assert!(!w.has_focus());
    w.set_has_focus(true);
    assert!(w.has_focus());
}

#[test]
fn scale_conversions_round_to_nearest() {
    // A factor of two.
    assert_eq!(physical_to_logical(300, 240), 150);
    assert_eq!(logical_to_physical(150, 240), 300);
    // A factor of one and a half rounds halves up.
    assert_eq!(physical_to_logical(301, 180), 201);
    assert_eq!(logical_to_physical(201, 180), 302);
}
