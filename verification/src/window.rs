//! The state of one window, driven by compositor configure events.
use vstd::prelude::*;

use crate::configure::Configure;
use crate::configure::DecorationMode;
use crate::configure::LayerConfigure;
use crate::configure::StateFlags;
use crate::cursor::CursorGrabMode;
use crate::cursor::CursorIcon;
use crate::cursor::GrabState;
use crate::cursor::PointerEntry;
use crate::cursor::SelectedCursor;
use crate::dpi::spec_size_to_logical;
use crate::dpi::valid_scale;
use crate::dpi::LogicalSize;
use crate::dpi::PhysicalSize;
use crate::dpi::Size;
use crate::dpi::SCALE_ONE;
use crate::frame::Frame;
use crate::frame::FrameMetrics;
use crate::geometry::spec_bound_axis;
use crate::geometry::spec_layer_new_size;
use crate::geometry::spec_new_inner_size;
use crate::geometry::spec_state_change_requires_resize;
use crate::requests::Request;
use crate::requests::WindowEvent;
use crate::FrameCallbackState;
use crate::ImePurpose;
use crate::Theme;

verus! {

/// Minimum width the window accepts as its size hint.
pub const MIN_WINDOW_WIDTH: u32 = 2;

/// Minimum height the window accepts as its size hint.
pub const MIN_WINDOW_HEIGHT: u32 = 1;

/// Whether client-side decorations can be built in this session.
///
/// Creation needs a subcompositor; when one exists, building the frame can
/// still fail, and that failure is part of the environment the state runs
/// in.
#[derive(Debug, Clone, Copy)]
pub enum CsdSupport {
    /// No subcompositor: creation is never attempted.
    Unavailable,
    /// Creation succeeds and yields a frame with these border metrics;
    /// `themed` picks the frame implementation.
    Available { metrics: FrameMetrics, themed: bool },
    /// Creation is attempted but the frame cannot be built.
    Failing,
}

impl CsdSupport {
    pub open spec fn wf(&self) -> bool {
        self matches CsdSupport::Available { metrics, .. } ==> metrics.wf()
    }

    /// Whether a subcompositor exists, so creation may be attempted.
    pub open spec fn subcompositor_present(&self) -> bool {
        !(*self is Unavailable)
    }
}

/// The optional compositor services the window was built against; a missing
/// one degrades the matching feature instead of failing.
#[derive(Debug, Clone, Copy)]
pub struct Capabilities {
    /// A viewporter, used for fractional scaling of the committed buffer.
    pub viewport: bool,
    /// A fractional-scale listener on the surface.
    pub fractional_scale: bool,
    /// A pointer-constraints service for locking and confining pointers.
    pub pointer_constraints: bool,
    /// A blur manager.
    pub blur_manager: bool,
    /// Whether client-side decorations can be built.
    pub csd: CsdSupport,
}

impl Capabilities {
    pub open spec fn wf(&self) -> bool {
        self.csd.wf()
    }
}

/// The state specific to a desktop top-level window.
#[derive(Debug, Clone)]
pub struct TopLevelState {
    /// The last received configure; absent until the compositor has
    /// acknowledged the window once.
    pub last_configure: Option<Configure>,

    /// Whether the window is resizable.
    pub resizable: bool,

    /// The decoration frame, created from a configure request.
    pub frame: Option<Frame>,

    /// Set once frame creation has failed, so it is not retried on every
    /// configure.
    pub csd_fails: bool,

    /// Whether the frame should be visible.
    pub decorate: bool,

    /// The minimum size hint, borders included.
    pub min_inner_size: LogicalSize,

    /// The maximum size hint, borders included.
    pub max_inner_size: Option<LogicalSize>,

    /// The size of the window while no state flags apply to it, used as the
    /// fallback when the compositor proposes no size.
    pub stateless_size: LogicalSize,

    /// The state of the frame callback.
    pub frame_callback_state: FrameCallbackState,

    /// The serial of a click that may yet turn into a window move.
    pub pending_move: Option<u32>,
}

/// The state specific to a layer overlay surface.  Decorations, size hints
/// and resizing do not exist here at all.
#[derive(Debug, Clone, Copy)]
pub struct LayerState {
    /// The last received configure.
    pub last_configure: Option<LayerConfigure>,
}

/// Shell-specific state: a desktop top-level window or a layer overlay.
#[derive(Debug, Clone)]
pub enum ShellVariant {
    TopLevel(TopLevelState),
    LayerOverlay(LayerState),
}

/// A positive size on both axes.
pub open spec fn positive(s: LogicalSize) -> bool {
    s.width >= 1 && s.height >= 1
}

/// The opaque-region request a resize re-issues: the full surface is marked
/// opaque unless the window is transparent.
pub open spec fn spec_transparency_request(transparent: bool) -> Request {
    if transparent {
        Request::ClearOpaqueRegion
    } else {
        Request::SetOpaqueRegionFull
    }
}

/// The geometry request a resize issues: for a top-level window the frame
/// offset and the border-inclusive outer size, for a layer surface the raw
/// size.
pub open spec fn spec_geometry_request(
    xdg: bool,
    borders: FrameMetrics,
    inner: LogicalSize,
) -> Request {
    if xdg {
        Request::SetWindowGeometry {
            x: (0 - borders.left as int) as i32,
            y: (0 - borders.top as int) as i32,
            width: Frame::spec_add_axis(inner.width, borders.left + borders.right),
            height: Frame::spec_add_axis(inner.height, borders.top + borders.bottom),
        }
    } else {
        Request::SetLayerSize { width: inner.width, height: inner.height }
    }
}

/// Everything one resize sends, in order: the opacity hint, the geometry,
/// and, when a viewport exists, its new destination.  The calls are
/// re-issued on every resize, without a dirty check.
pub open spec fn spec_resize_requests(
    transparent: bool,
    xdg: bool,
    borders: FrameMetrics,
    viewport: bool,
    inner: LogicalSize,
) -> Seq<Request> {
    seq![
        spec_transparency_request(transparent),
        spec_geometry_request(xdg, borders, inner),
    ] + if viewport {
        seq![Request::SetViewportDestination { width: inner.width, height: inner.height }]
    } else {
        Seq::<Request>::empty()
    }
}

/// The top-level state after a resize to `inner`: the stateless fallback
/// follows the new size when the stored configure carries no
/// size-dictating state, and a visible frame is resized around the content.
pub open spec fn spec_tl_after_resize(tl: TopLevelState, inner: LogicalSize) -> TopLevelState {
    TopLevelState {
        stateless_size: if tl.last_configure matches Some(c) && c.spec_is_stateless() {
            inner
        } else {
            tl.stateless_size
        },
        frame: match tl.frame {
            Some(f) => Some(
                if f.hidden {
                    f
                } else {
                    Frame { width: inner.width, height: inner.height, dirty: true, ..f }
                },
            ),
            None => None,
        },
        ..tl
    }
}

/// How an existing frame evolves over one configure: the new state flags
/// are pushed in, and the frame is resized when the window is.
pub open spec fn spec_frame_evolved(
    f0: Frame,
    flags: StateFlags,
    redraw: bool,
    inner: LogicalSize,
) -> Frame {
    let f1 = Frame { state: flags, dirty: true, ..f0 };
    if redraw && !f1.hidden {
        Frame { width: inner.width, height: inner.height, dirty: true, ..f1 }
    } else {
        f1
    }
}

/// A configure whose state flags match the stored one outside of
/// `activated` and `suspended`, and whose settled size equals the current
/// inner size, reports that no redraw is needed.
pub proof fn lemma_identical_configure_no_redraw(w: WindowState, c: Configure)
    requires
        w.is_xdg(),
        w.initial_size is None,
        w.tl().last_configure matches Some(p) && !crate::configure::flags_differ_beyond_activation(
            p.state,
            c.state,
        ),
        w.spec_configure_new_size(c) == w.size,
    ensures
        !w.spec_needs_redraw(c),
{
}

/// Occlusion is emitted exactly when the suspended flag changes against
/// the previous configure: once with the new value on a change, never on a
/// repeat of the same value.
pub proof fn lemma_occluded_exactly_on_change(w: WindowState, c: Configure)
    requires
        w.is_xdg(),
    ensures
        ({
            let prev = match w.tl().last_configure {
                Some(p) => p.state.suspended,
                None => false,
            };
            &&& (prev != c.state.suspended ==> w.spec_occluded_events(c) == seq![
                WindowEvent::Occluded(c.state.suspended),
            ])
            &&& (prev == c.state.suspended ==> w.spec_occluded_events(c) == Seq::<
                WindowEvent,
            >::empty())
        }),
{
}

/// Across two configures with the same suspended flag, the second emits no
/// occlusion event: the first stores its configure, so the second sees an
/// unchanged flag.
pub proof fn lemma_occluded_not_repeated(w2: WindowState, c1: Configure, c2: Configure)
    requires
        w2.is_xdg(),
        w2.tl().last_configure == Some(c1),
        c2.state.suspended == c1.state.suspended,
    ensures
        w2.spec_occluded_events(c2) == Seq::<WindowEvent>::empty(),
{
}

/// Once frame creation has failed, the sticky flag keeps any later
/// configure from attempting it again: after a configure whose attempt
/// failed, no configure on the resulting state wants a frame, so the
/// attempt counter stays put.
pub proof fn lemma_frame_creation_not_retried(
    w1: WindowState,
    c1: Configure,
    w2: WindowState,
    c2: Configure,
)
    requires
        w1.is_xdg(),
        w2.is_xdg(),
        w1.spec_wants_frame(c1),
        w1.caps.csd is Failing,
        w2.tl().csd_fails == (w1.tl().csd_fails || (w1.spec_wants_frame(c1)
            && w1.caps.csd is Failing)),
    ensures
        !w2.spec_wants_frame(c2),
{
}

/// What a just-created frame looks like before the configure's state flags
/// and size reach it.
pub open spec fn spec_new_frame_ok(
    f: Frame,
    metrics: FrameMetrics,
    themed: bool,
    theme: Option<Theme>,
    title: Seq<char>,
    scale: u32,
    decorate: bool,
) -> bool {
    &&& f.metrics == metrics
    &&& f.is_themed() == themed
    &&& (themed ==> f.kind->Themed_theme == theme)
    &&& f.spec_title() == (if themed {
        Some(title)
    } else {
        None::<Seq<char>>
    })
    &&& f.hidden == !decorate
    &&& f.dirty
    &&& f.resizable
    &&& f.scale == scale
    &&& f.state == StateFlags {
        maximized: false,
        fullscreen: false,
        tiled: false,
        suspended: false,
        activated: false,
    }
    &&& f.pointer is None
    &&& f.width == 0 && f.height == 0
}

/// The frame slot after the creation/drop policy of a configure ran, before
/// the new state flags are pushed in.
pub open spec fn frame_after_policy_ok(pre: WindowState, c: Configure, f: Option<Frame>) -> bool
    recommends
        pre.is_xdg(),
{
    if pre.spec_wants_frame(c) {
        match pre.caps.csd {
            CsdSupport::Available { metrics, themed } => f matches Some(nf) && spec_new_frame_ok(
                nf,
                metrics,
                themed,
                pre.theme,
                pre.title@,
                pre.scale_factor,
                pre.tl().decorate,
            ),
            _ => f == pre.tl().frame,
        }
    } else if c.decoration_mode == DecorationMode::Server {
        f is None
    } else {
        f == pre.tl().frame
    }
}

/// What a frame created during a configure looks like once the configure
/// is done.
pub open spec fn spec_created_frame_ok(
    f: Frame,
    metrics: FrameMetrics,
    themed: bool,
    theme: Option<Theme>,
    title: Seq<char>,
    scale: u32,
    decorate: bool,
    flags: StateFlags,
    redraw: bool,
    inner: LogicalSize,
) -> bool {
    &&& f.metrics == metrics
    &&& f.is_themed() == themed
    &&& (themed ==> f.kind->Themed_theme == theme)
    &&& f.spec_title() == (if themed {
        Some(title)
    } else {
        None::<Seq<char>>
    })
    &&& f.hidden == !decorate
    &&& f.dirty
    &&& f.resizable
    &&& f.scale == scale
    &&& f.state == flags
    &&& f.pointer is None
    &&& (if redraw && decorate {
        f.width == inner.width && f.height == inner.height
    } else {
        f.width == 0 && f.height == 0
    })
}

/// The state of one window.
#[derive(Debug, Clone)]
pub struct WindowState {
    /// The services available in this session.
    pub caps: Capabilities,

    /// Shell-specific state, fixed at construction.
    pub shell: ShellVariant,

    /// The decoration theme.
    pub theme: Option<Theme>,

    /// The current window title.
    pub title: String,

    /// Whether the window has focus.
    pub has_focus: bool,

    /// The scale factor, in 1/120 steps.
    pub scale_factor: u32,

    /// Whether the window is transparent.
    pub transparent: bool,

    /// The cursor grabbing state.
    pub cursor_grab_mode: GrabState,

    /// The cursor the user selected.
    pub selected_cursor: SelectedCursor,

    /// Whether the cursor is visible.
    pub cursor_visible: bool,

    /// Whether IME input is allowed on the window.
    pub ime_allowed: bool,

    /// The current IME purpose.
    pub ime_purpose: ImePurpose,

    /// The text inputs associated with the window, by identifier.
    pub text_inputs: Vec<u32>,

    /// The pointers observed on the window.
    pub pointers: Vec<PointerEntry>,

    /// The inner size of the window, without decorations.
    pub size: LogicalSize,

    /// The size the user asked for at construction; consumed by the first
    /// configure.
    pub initial_size: Option<Size>,

    /// Whether a blur object currently exists for the surface.
    pub blur: bool,

    /// How many times frame creation has been attempted.
    pub frame_attempts: u64,
}

impl WindowState {
    /// The invariant every operation preserves.
    pub open spec fn wf(&self) -> bool {
        &&& self.caps.wf()
        &&& valid_scale(self.scale_factor)
        &&& positive(self.size)
        &&& (self.shell matches ShellVariant::TopLevel(tl) ==> {
            &&& positive(tl.stateless_size)
            &&& (tl.frame matches Some(f) ==> f.wf())
        })
        &&& (forall|i: int| 0 <= i < self.pointers@.len() ==> self.pointers@[i].wf())
        &&& (self.blur ==> self.caps.blur_manager)
        &&& (self.selected_cursor matches SelectedCursor::Custom(c) ==> c.wf())
    }

    /// Whether the window is a desktop top-level window.
    pub open spec fn is_xdg(&self) -> bool {
        self.shell is TopLevel
    }

    /// The top-level state; meaningful only for a top-level window.
    pub open spec fn tl(&self) -> TopLevelState
        recommends
            self.is_xdg(),
    {
        self.shell->TopLevel_0
    }

    /// The decoration frame, when one exists.
    pub open spec fn spec_frame(&self) -> Option<Frame> {
        match self.shell {
            ShellVariant::TopLevel(tl) => tl.frame,
            ShellVariant::LayerOverlay(_) => None,
        }
    }

    /// The borders the decorations take up right now: zero without a
    /// visible frame.
    pub open spec fn spec_borders(&self) -> FrameMetrics {
        match self.spec_frame() {
            Some(f) => f.spec_borders(),
            None => FrameMetrics::zero(),
        }
    }

    /// Create new state for a top-level window.
    pub fn new_xdg(caps: Capabilities, initial_size: Size, theme: Option<Theme>) -> (w:
        WindowState)
        requires
            caps.wf(),
            positive(spec_size_to_logical(initial_size, SCALE_ONE)),
        ensures
            w == (WindowState {
                caps,
                shell: ShellVariant::TopLevel(
                    TopLevelState {
                        last_configure: None,
                        resizable: true,
                        frame: None,
                        csd_fails: false,
                        decorate: true,
                        min_inner_size: (LogicalSize {
                            width: MIN_WINDOW_WIDTH,
                            height: MIN_WINDOW_HEIGHT,
                        }),
                        max_inner_size: None,
                        stateless_size: spec_size_to_logical(initial_size, SCALE_ONE),
                        frame_callback_state: FrameCallbackState::Idle,
                        pending_move: None,
                    },
                ),
                theme,
                title: w.title,
                has_focus: false,
                scale_factor: SCALE_ONE,
                transparent: false,
                cursor_grab_mode: (GrabState {
                    user_grab_mode: CursorGrabMode::Free,
                    current_grab_mode: CursorGrabMode::Free,
                }),
                selected_cursor: SelectedCursor::Named(CursorIcon::Default),
                cursor_visible: true,
                ime_allowed: false,
                ime_purpose: ImePurpose::Normal,
                text_inputs: w.text_inputs,
                pointers: w.pointers,
                size: spec_size_to_logical(initial_size, SCALE_ONE),
                initial_size: Some(initial_size),
                blur: false,
                frame_attempts: 0,
            }),
            w.title@.len() == 0,
            w.text_inputs@.len() == 0,
            w.pointers@.len() == 0,
            w.wf(),
            w.is_xdg(),
    {
        let size = initial_size.to_logical(SCALE_ONE);
        WindowState {
            caps,
            shell: ShellVariant::TopLevel(
                TopLevelState {
                    last_configure: None,
                    resizable: true,
                    frame: None,
                    csd_fails: false,
                    decorate: true,
                    min_inner_size: LogicalSize {
                        width: MIN_WINDOW_WIDTH,
                        height: MIN_WINDOW_HEIGHT,
                    },
                    max_inner_size: None,
                    stateless_size: size,
                    frame_callback_state: FrameCallbackState::Idle,
                    pending_move: None,
                },
            ),
            theme,
            title: String::new(),
            has_focus: false,
            scale_factor: SCALE_ONE,
            transparent: false,
            cursor_grab_mode: GrabState::new(),
            selected_cursor: SelectedCursor::Named(CursorIcon::Default),
            cursor_visible: true,
            ime_allowed: false,
            ime_purpose: ImePurpose::Normal,
            text_inputs: Vec::new(),
            pointers: Vec::new(),
            size,
            initial_size: Some(initial_size),
            blur: false,
            frame_attempts: 0,
        }
    }

    /// Create new state for a layer overlay surface.
    pub fn new_layer(caps: Capabilities, initial_size: Size, theme: Option<Theme>) -> (w:
        WindowState)
        requires
            caps.wf(),
            positive(spec_size_to_logical(initial_size, SCALE_ONE)),
        ensures
            w == (WindowState {
                caps,
                shell: ShellVariant::LayerOverlay(LayerState { last_configure: None }),
                theme,
                title: w.title,
                has_focus: false,
                scale_factor: SCALE_ONE,
                transparent: false,
                cursor_grab_mode: (GrabState {
                    user_grab_mode: CursorGrabMode::Free,
                    current_grab_mode: CursorGrabMode::Free,
                }),
                selected_cursor: SelectedCursor::Named(CursorIcon::Default),
                cursor_visible: true,
                ime_allowed: false,
                ime_purpose: ImePurpose::Normal,
                text_inputs: w.text_inputs,
                pointers: w.pointers,
                size: spec_size_to_logical(initial_size, SCALE_ONE),
                initial_size: Some(initial_size),
                blur: false,
                frame_attempts: 0,
            }),
            w.title@.len() == 0,
            w.text_inputs@.len() == 0,
            w.pointers@.len() == 0,
            w.wf(),
            !w.is_xdg(),
    {
        let size = initial_size.to_logical(SCALE_ONE);
        WindowState {
            caps,
            shell: ShellVariant::LayerOverlay(LayerState { last_configure: None }),
            theme,
            title: String::new(),
            has_focus: false,
            scale_factor: SCALE_ONE,
            transparent: false,
            cursor_grab_mode: GrabState::new(),
            selected_cursor: SelectedCursor::Named(CursorIcon::Default),
            cursor_visible: true,
            ime_allowed: false,
            ime_purpose: ImePurpose::Normal,
            text_inputs: Vec::new(),
            pointers: Vec::new(),
            size,
            initial_size: Some(initial_size),
            blur: false,
            frame_attempts: 0,
        }
    }

    /// Get the current state of the frame callback.
    pub fn frame_callback_state(&self) -> (r: FrameCallbackState)
        ensures
            r == if self.is_xdg() {
                self.tl().frame_callback_state
            } else {
                FrameCallbackState::Idle
            },
    {
        match &self.shell {
            ShellVariant::TopLevel(tl) => tl.frame_callback_state,
            ShellVariant::LayerOverlay(_) => FrameCallbackState::Idle,
        }
    }

    /// The frame callback was received, but not yet sent to the user.
    pub fn frame_callback_received(&mut self)
        ensures
            old(self).is_xdg() ==> *final(self) == (WindowState {
                shell: ShellVariant::TopLevel(
                    (TopLevelState {
                        frame_callback_state: FrameCallbackState::Received,
                        ..old(self).tl()
                    }),
                ),
                ..*old(self)
            }),
            !old(self).is_xdg() ==> *final(self) == *old(self),
    {
        match &mut self.shell {
            ShellVariant::TopLevel(tl) => {
                tl.frame_callback_state = FrameCallbackState::Received;
            },
            ShellVariant::LayerOverlay(_) => {},
        }
    }

    /// Reset the frame callback state.
    pub fn frame_callback_reset(&mut self)
        ensures
            old(self).is_xdg() ==> *final(self) == (WindowState {
                shell: ShellVariant::TopLevel(
                    (TopLevelState {
                        frame_callback_state: FrameCallbackState::Idle,
                        ..old(self).tl()
                    }),
                ),
                ..*old(self)
            }),
            !old(self).is_xdg() ==> *final(self) == *old(self),
    {
        match &mut self.shell {
            ShellVariant::TopLevel(tl) => {
                tl.frame_callback_state = FrameCallbackState::Idle;
            },
            ShellVariant::LayerOverlay(_) => {},
        }
    }

    /// Request a frame callback, unless one is already in flight for this
    /// window.
    pub fn request_frame_callback(&mut self, requests: &mut Vec<Request>)
        ensures
            old(self).is_xdg() && old(self).tl().frame_callback_state
                != FrameCallbackState::Requested ==> {
                &&& *final(self) == (WindowState {
                    shell: ShellVariant::TopLevel(
                        (TopLevelState {
                            frame_callback_state: FrameCallbackState::Requested,
                            ..old(self).tl()
                        }),
                    ),
                    ..*old(self)
                })
                &&& final(requests)@ == old(requests)@ + seq![Request::FrameCallback]
            },
            old(self).is_xdg() && old(self).tl().frame_callback_state
                == FrameCallbackState::Requested ==> {
                &&& *final(self) == *old(self)
                &&& final(requests)@ == old(requests)@
            },
            !old(self).is_xdg() ==> {
                &&& *final(self) == *old(self)
                &&& final(requests)@ == old(requests)@
            },
    {
        match &mut self.shell {
            ShellVariant::TopLevel(tl) => {
                match tl.frame_callback_state {
                    FrameCallbackState::Idle | FrameCallbackState::Received => {
                        tl.frame_callback_state = FrameCallbackState::Requested;
                        requests.push(Request::FrameCallback);
                        proof {
                            assert(requests@ =~= old(requests)@ + seq![Request::FrameCallback]);
                        }
                    },
                    FrameCallbackState::Requested => (),
                }
            },
            ShellVariant::LayerOverlay(_) => {},
        }
    }

    /// Whether the window has focus.
    pub fn has_focus(&self) -> (r: bool)
        ensures
            r == self.has_focus,
    {
        self.has_focus
    }

    /// Mark that the window has focus.
    pub fn set_has_focus(&mut self, has_focus: bool)
        ensures
            *final(self) == (WindowState { has_focus, ..*old(self) }),
    {
        self.has_focus = has_focus;
    }

    /// Whether the IME is allowed.
    pub fn ime_allowed(&self) -> (r: bool)
        ensures
            r == self.ime_allowed,
    {
        self.ime_allowed
    }

    /// Get the IME purpose.
    pub fn ime_purpose(&self) -> (r: ImePurpose)
        ensures
            r == self.ime_purpose,
    {
        self.ime_purpose
    }

    /// Get the inner size of the window, without decorations.
    pub fn inner_size(&self) -> (r: LogicalSize)
        ensures
            r == self.size,
    {
        self.size
    }

    /// Whether the window received its initial configure.
    pub fn is_configured(&self) -> (r: bool)
        ensures
            r == match self.shell {
                ShellVariant::TopLevel(tl) => tl.last_configure is Some,
                ShellVariant::LayerOverlay(l) => l.last_configure is Some,
            },
    {
        match &self.shell {
            ShellVariant::TopLevel(tl) => tl.last_configure.is_some(),
            ShellVariant::LayerOverlay(l) => l.last_configure.is_some(),
        }
    }

    /// Get the stored resizable state; a layer overlay never resizes
    /// interactively.
    pub fn resizable(&self) -> (r: bool)
        ensures
            r == (self.is_xdg() && self.tl().resizable),
    {
        match &self.shell {
            ShellVariant::TopLevel(tl) => tl.resizable,
            ShellVariant::LayerOverlay(_) => false,
        }
    }

    /// Get the scale factor of the window, in 1/120 steps.
    pub fn scale_factor(&self) -> (r: u32)
        ensures
            r == self.scale_factor,
    {
        self.scale_factor
    }

    /// The current decoration theme; a layer overlay has none.
    pub fn theme(&self) -> (r: Option<Theme>)
        ensures
            r == if self.is_xdg() {
                self.theme
            } else {
                None::<Theme>
            },
    {
        match &self.shell {
            ShellVariant::TopLevel(_) => self.theme,
            ShellVariant::LayerOverlay(_) => None,
        }
    }

    /// Get the cached title.
    pub fn title(&self) -> (r: &String)
        ensures
            r == self.title,
    {
        &self.title
    }

    /// Whether the last configure left the window maximized.
    pub fn is_maximized(&self) -> (r: bool)
        ensures
            r == (self.is_xdg() && (self.tl().last_configure matches Some(c)
                && c.state.maximized)),
    {
        match &self.shell {
            ShellVariant::TopLevel(tl) => match &tl.last_configure {
                Some(c) => c.state.maximized,
                None => false,
            },
            ShellVariant::LayerOverlay(_) => false,
        }
    }

    /// Whether the last configure left the window fullscreen.
    pub fn is_fullscreen(&self) -> (r: bool)
        ensures
            r == (self.is_xdg() && (self.tl().last_configure matches Some(c)
                && c.state.fullscreen)),
    {
        match &self.shell {
            ShellVariant::TopLevel(tl) => match &tl.last_configure {
                Some(c) => c.state.fullscreen,
                None => false,
            },
            ShellVariant::LayerOverlay(_) => false,
        }
    }

    /// How often frame creation has been attempted so far.
    pub fn frame_creation_attempts(&self) -> (r: u64)
        ensures
            r == self.frame_attempts,
    {
        self.frame_attempts
    }

    /// Register a text input on the window, once.
    pub fn text_input_entered(&mut self, text_input: u32)
        ensures
            old(self).text_inputs@.contains(text_input) ==> *final(self) == *old(self),
            !old(self).text_inputs@.contains(text_input) ==> {
                &&& *final(self) == (WindowState { text_inputs: final(self).text_inputs, ..*old(self) })
                &&& final(self).text_inputs@ == old(self).text_inputs@.push(text_input)
            },
    {
        let mut i: usize = 0;
        let n = self.text_inputs.len();
        while i < n
            invariant
                i <= n,
                n == self.text_inputs@.len(),
                forall|j: int| 0 <= j < i ==> self.text_inputs@[j] != text_input,
                *self == *old(self),
            decreases n - i,
        {
            if self.text_inputs[i] == text_input {
                return ;
            }
            i = i + 1;
        }
        self.text_inputs.push(text_input);
    }

    /// The size the window has once a pending initial size is honored at
    /// the current scale factor.
    pub open spec fn spec_seeded_size(&self) -> LogicalSize {
        match self.initial_size {
            Some(s) => spec_size_to_logical(s, self.scale_factor),
            None => self.size,
        }
    }

    /// The stateless fallback size once a pending initial size is honored.
    pub open spec fn spec_seeded_stateless(&self) -> LogicalSize
        recommends
            self.is_xdg(),
    {
        match self.initial_size {
            Some(s) => spec_size_to_logical(s, self.scale_factor),
            None => self.tl().stateless_size,
        }
    }

    /// Whether this configure calls for a frame-creation attempt: the
    /// compositor asked for client decorations, no frame exists, creation
    /// has not failed before, and a subcompositor is there to try with.
    pub open spec fn spec_wants_frame(&self, c: Configure) -> bool
        recommends
            self.is_xdg(),
    {
        &&& self.caps.csd.subcompositor_present()
        &&& c.decoration_mode == DecorationMode::Client
        &&& self.tl().frame is None
        &&& !self.tl().csd_fails
    }

    /// Whether a frame exists after the creation/drop policy of this
    /// configure ran.
    pub open spec fn spec_has_frame_after_policy(&self, c: Configure) -> bool
        recommends
            self.is_xdg(),
    {
        if self.spec_wants_frame(c) {
            match self.caps.csd {
                CsdSupport::Available { .. } => true,
                _ => self.tl().frame is Some,
            }
        } else if c.decoration_mode == DecorationMode::Server {
            false
        } else {
            self.tl().frame is Some
        }
    }

    /// The decoration borders in effect after the creation/drop policy of
    /// this configure ran.
    pub open spec fn spec_borders_after_policy(&self, c: Configure) -> FrameMetrics
        recommends
            self.is_xdg(),
    {
        if self.spec_wants_frame(c) {
            match self.caps.csd {
                CsdSupport::Available { metrics, .. } => if self.tl().decorate {
                    metrics
                } else {
                    FrameMetrics::zero()
                },
                _ => self.spec_borders(),
            }
        } else if c.decoration_mode == DecorationMode::Server {
            FrameMetrics::zero()
        } else {
            self.spec_borders()
        }
    }

    /// The inner size this configure settles on.
    pub open spec fn spec_configure_new_size(&self, c: Configure) -> LogicalSize
        recommends
            self.is_xdg(),
    {
        spec_new_inner_size(
            c,
            self.spec_borders_after_policy(c),
            self.spec_has_frame_after_policy(c),
            self.spec_seeded_size(),
            self.spec_seeded_stateless(),
        )
    }

    /// Whether this configure makes the window redraw: a state change
    /// beyond activation and suspension, the very first configure, or a
    /// changed size.
    pub open spec fn spec_needs_redraw(&self, c: Configure) -> bool
        recommends
            self.is_xdg(),
    {
        spec_state_change_requires_resize(self.tl().last_configure, c.state)
            || self.spec_configure_new_size(c) != self.spec_seeded_size()
    }

    /// The lifecycle events this configure emits: occlusion exactly when
    /// the suspended flag changes against the previous configure.
    pub open spec fn spec_occluded_events(&self, c: Configure) -> Seq<WindowEvent>
        recommends
            self.is_xdg(),
    {
        let prev = match self.tl().last_configure {
            Some(p) => p.state.suspended,
            None => false,
        };
        if prev != c.state.suspended {
            seq![WindowEvent::Occluded(c.state.suspended)]
        } else {
            Seq::<WindowEvent>::empty()
        }
    }

    /// Reissue the transparency hint to the compositor.
    pub fn reload_transparency_hint(&self, requests: &mut Vec<Request>)
        ensures
            final(requests)@ == old(requests)@ + seq![spec_transparency_request(self.transparent)],
    {
        if self.transparent {
            requests.push(Request::ClearOpaqueRegion);
        } else {
            requests.push(Request::SetOpaqueRegionFull);
        }
        proof {
            assert(requests@ =~= old(requests)@ + seq![
                spec_transparency_request(self.transparent),
            ]);
        }
    }

    /// Get the outer size of the window, decoration borders included.
    pub fn outer_size(&self) -> (r: LogicalSize)
        requires
            self.wf(),
        ensures
            r == (LogicalSize {
                width: Frame::spec_add_axis(
                    self.size.width,
                    self.spec_borders().left + self.spec_borders().right,
                ),
                height: Frame::spec_add_axis(
                    self.size.height,
                    self.spec_borders().top + self.spec_borders().bottom,
                ),
            }),
    {
        match &self.shell {
            ShellVariant::TopLevel(tl) => match &tl.frame {
                Some(f) => {
                    let (w, h) = f.add_borders(self.size.width, self.size.height);
                    LogicalSize { width: w, height: h }
                },
                None => self.size,
            },
            ShellVariant::LayerOverlay(_) => self.size,
        }
    }

    /// Whether the window shows decorations right now: a visible
    /// client-side frame, or the compositor drawing them server-side.
    pub fn is_decorated(&self) -> (r: bool)
        ensures
            r == (self.is_xdg() && {
                let csd = self.tl().last_configure matches Some(c) && c.decoration_mode
                    == DecorationMode::Client;
                if csd {
                    match self.tl().frame {
                        Some(f) => !f.hidden,
                        None => true,
                    }
                } else {
                    true
                }
            }),
    {
        match &self.shell {
            ShellVariant::TopLevel(tl) => {
                let csd = match &tl.last_configure {
                    Some(c) => c.decoration_mode == DecorationMode::Client,
                    None => false,
                };
                if csd {
                    match &tl.frame {
                        Some(f) => !f.is_hidden(),
                        None => true,
                    }
                } else {
                    true
                }
            },
            ShellVariant::LayerOverlay(_) => false,
        }
    }

    /// Compute the bounds for the inner size of the surface, borders taken
    /// out; a zero axis from the compositor means no bound.
    fn inner_size_bounds(frame: &Option<Frame>, configure: &Configure) -> (r: (
        Option<u32>,
        Option<u32>,
    ))
        requires
            frame matches Some(f) ==> f.wf(),
        ensures
            ({
                let borders = match *frame {
                    Some(f) => f.spec_borders(),
                    None => FrameMetrics::zero(),
                };
                let bw = match configure.suggested_bounds {
                    Some(b) => b.width,
                    None => 0u32,
                };
                let bh = match configure.suggested_bounds {
                    Some(b) => b.height,
                    None => 0u32,
                };
                &&& r.0 == spec_bound_axis(bw, borders.left + borders.right, *frame is Some)
                &&& r.1 == spec_bound_axis(bh, borders.top + borders.bottom, *frame is Some)
            }),
    {
        match &configure.suggested_bounds {
            None => (None, None),
            Some(b) => match frame {
                Some(f) => {
                    let (sw, sh) = f.subtract_borders(b.width, b.height);
                    (
                        if b.width == 0 {
                            None
                        } else {
                            sw
                        },
                        if b.height == 0 {
                            None
                        } else {
                            sh
                        },
                    )
                },
                None => (
                    if b.width == 0 {
                        None
                    } else {
                        Some(b.width)
                    },
                    if b.height == 0 {
                        None
                    } else {
                        Some(b.height)
                    },
                ),
            },
        }
    }

    /// Resize the window to the new inner size: store it, keep the
    /// stateless fallback in step, resize a visible frame, and re-issue the
    /// opacity, geometry and viewport requests.
    #[verifier::rlimit(60)]
    pub(crate) fn resize(&mut self, inner_size: LogicalSize, requests: &mut Vec<Request>)
        requires
            old(self).wf(),
            positive(inner_size),
        ensures
            old(self).is_xdg() ==> *final(self) == (WindowState {
                size: inner_size,
                shell: ShellVariant::TopLevel(spec_tl_after_resize(old(self).tl(), inner_size)),
                ..*old(self)
            }),
            !old(self).is_xdg() ==> *final(self) == (WindowState { size: inner_size, ..*old(self) }),
            final(requests)@ == old(requests)@ + spec_resize_requests(
                old(self).transparent,
                old(self).is_xdg(),
                old(self).spec_borders(),
                old(self).caps.viewport,
                inner_size,
            ),
            final(self).wf(),
    {
        self.size = inner_size;
        let mut x: i32 = 0;
        let mut y: i32 = 0;
        let mut outer_w: u32 = inner_size.width;
        let mut outer_h: u32 = inner_size.height;
        match &mut self.shell {
            ShellVariant::TopLevel(tl) => {
                let update_stateless = match &tl.last_configure {
                    Some(c) => c.is_stateless(),
                    None => false,
                };
                if update_stateless {
                    tl.stateless_size = inner_size;
                }
                match &mut tl.frame {
                    Some(frame) => {
                        if !frame.is_hidden() {
                            frame.resize(inner_size.width, inner_size.height);
                        }
                        let loc = frame.location();
                        x = loc.0;
                        y = loc.1;
                        let (w, h) = frame.add_borders(inner_size.width, inner_size.height);
                        outer_w = w;
                        outer_h = h;
                    },
                    None => {},
                }
            },
            ShellVariant::LayerOverlay(_) => {},
        }
        self.reload_transparency_hint(requests);
        match &self.shell {
            ShellVariant::TopLevel(_) => {
                requests.push(Request::SetWindowGeometry { x, y, width: outer_w, height: outer_h });
            },
            ShellVariant::LayerOverlay(_) => {
                requests.push(Request::SetLayerSize { width: outer_w, height: outer_h });
            },
        }
        if self.caps.viewport {
            requests.push(
                Request::SetViewportDestination {
                    width: inner_size.width,
                    height: inner_size.height,
                },
            );
        }
        proof {
            assert(requests@ =~= old(requests)@ + spec_resize_requests(
                old(self).transparent,
                old(self).is_xdg(),
                old(self).spec_borders(),
                old(self).caps.viewport,
                inner_size,
            ));
        }
    }

    /// The first two steps of a top-level configure: honor a pending
    /// initial size at the current scale factor, then create or drop the
    /// decoration frame per policy.  Creation is attempted only when the
    /// compositor asked for client decorations, no frame exists, and no
    /// earlier attempt failed; a failure sets the sticky flag instead of
    /// propagating.  When the mode turns server-side the frame is dropped.
    fn prepare_configure(&mut self, configure: Configure)
        requires
            old(self).wf(),
            old(self).is_xdg(),
            configure.wf(),
            old(self).frame_attempts < u64::MAX,
            old(self).initial_size matches Some(s) ==> positive(
                spec_size_to_logical(s, old(self).scale_factor),
            ),
        ensures
            *final(self) == (WindowState {
                size: old(self).spec_seeded_size(),
                shell: ShellVariant::TopLevel(
                    (TopLevelState {
                        stateless_size: old(self).spec_seeded_stateless(),
                        frame: final(self).tl().frame,
                        csd_fails: old(self).tl().csd_fails || (old(self).spec_wants_frame(
                            configure,
                        ) && old(self).caps.csd is Failing),
                        ..old(self).tl()
                    }),
                ),
                initial_size: None,
                frame_attempts: final(self).frame_attempts,
                ..*old(self)
            }),
            final(self).frame_attempts == old(self).frame_attempts + (if old(
                self,
            ).spec_wants_frame(configure) {
                1int
            } else {
                0int
            }),
            frame_after_policy_ok(*old(self), configure, final(self).tl().frame),
            final(self).wf(),
    {
        let scale = self.scale_factor;

        // Honor the initial size on the first configure, at the current
        // scale factor.
        match self.initial_size {
            Some(initial) => {
                let seeded = initial.to_logical(scale);
                self.size = seeded;
                self.initial_size = None;
                match &mut self.shell {
                    ShellVariant::TopLevel(tl) => {
                        tl.stateless_size = seeded;
                    },
                    ShellVariant::LayerOverlay(_) => {},
                }
            },
            None => {},
        }

        // Create or drop the decoration frame.
        let decorate = match &self.shell {
            ShellVariant::TopLevel(tl) => tl.decorate,
            ShellVariant::LayerOverlay(_) => true,
        };
        let want = match &self.shell {
            ShellVariant::TopLevel(tl) => configure.decoration_mode == DecorationMode::Client
                && tl.frame.is_none() && !tl.csd_fails,
            ShellVariant::LayerOverlay(_) => false,
        };
        let subcomp = match &self.caps.csd {
            CsdSupport::Unavailable => false,
            CsdSupport::Available { .. } => true,
            CsdSupport::Failing => true,
        };
        if subcomp && want {
            self.frame_attempts = self.frame_attempts + 1;
            match self.caps.csd {
                CsdSupport::Available { metrics, themed } => {
                    let mut f = Frame::new(metrics, themed, self.theme);
                    f.set_title(self.title.as_str());
                    f.set_scaling_factor(scale);
                    f.set_hidden(!decorate);
                    match &mut self.shell {
                        ShellVariant::TopLevel(tl) => {
                            tl.frame = Some(f);
                        },
                        ShellVariant::LayerOverlay(_) => {},
                    }
                },
                CsdSupport::Failing => {
                    match &mut self.shell {
                        ShellVariant::TopLevel(tl) => {
                            tl.csd_fails = true;
                        },
                        ShellVariant::LayerOverlay(_) => {},
                    }
                },
                CsdSupport::Unavailable => {},
            }
        } else if configure.decoration_mode == DecorationMode::Server {
            match &mut self.shell {
                ShellVariant::TopLevel(tl) => {
                    tl.frame = None;
                },
                ShellVariant::LayerOverlay(_) => {},
            }
        }
    }

    /// Compute the inner size a configure settles on, pushing the new state
    /// flags into the frame on the way: with both axes given the borders
    /// come out of the compositor's size, otherwise the stateless fallback
    /// or the current size is kept and clamped to the suggested bounds.
    fn compute_configure_size(&mut self, configure: Configure) -> (r: LogicalSize)
        requires
            old(self).wf(),
            old(self).is_xdg(),
            configure.wf(),
        ensures
            *final(self) == (WindowState {
                shell: ShellVariant::TopLevel(
                    (TopLevelState { frame: final(self).tl().frame, ..old(self).tl() }),
                ),
                ..*old(self)
            }),
            final(self).tl().frame == (match old(self).tl().frame {
                Some(f) => Some((Frame { state: configure.state, dirty: true, ..f })),
                None => None::<Frame>,
            }),
            r == spec_new_inner_size(
                configure,
                old(self).spec_borders(),
                old(self).tl().frame is Some,
                old(self).size,
                old(self).tl().stateless_size,
            ),
            final(self).wf(),
    {
        let stateless = configure.is_stateless();
        let cur_size = self.size;
        let (proposed, constrain): (LogicalSize, bool) = match &mut self.shell {
            ShellVariant::TopLevel(tl) => {
                let stateless_size = tl.stateless_size;
                match &mut tl.frame {
                    Some(frame) => {
                        frame.update_state(configure.state);
                        match (configure.new_width, configure.new_height) {
                            (Some(w), Some(h)) => {
                                let (sw, sh) = frame.subtract_borders(w, h);
                                let iw = match sw {
                                    Some(v) => v,
                                    None => 1,
                                };
                                let ih = match sh {
                                    Some(v) => v,
                                    None => 1,
                                };
                                (LogicalSize { width: iw, height: ih }, false)
                            },
                            _ => if stateless {
                                (stateless_size, true)
                            } else {
                                (cur_size, true)
                            },
                        }
                    },
                    None => {
                        match (configure.new_width, configure.new_height) {
                            (Some(w), Some(h)) => (LogicalSize { width: w, height: h }, false),
                            _ => if stateless {
                                (stateless_size, true)
                            } else {
                                (cur_size, true)
                            },
                        }
                    },
                }
            },
            ShellVariant::LayerOverlay(_) => (cur_size, true),
        };

        // Apply the configure bounds only when the compositor left the size
        // to the client.
        if constrain {
            let bounds = match &self.shell {
                ShellVariant::TopLevel(tl) => Self::inner_size_bounds(&tl.frame, &configure),
                ShellVariant::LayerOverlay(_) => (None, None),
            };
            LogicalSize {
                width: match bounds.0 {
                    Some(b) => if proposed.width < b {
                        proposed.width
                    } else {
                        b
                    },
                    None => proposed.width,
                },
                height: match bounds.1 {
                    Some(b) => if proposed.height < b {
                        proposed.height
                    } else {
                        b
                    },
                    None => proposed.height,
                },
            }
        } else {
            proposed
        }
    }

    /// Apply one top-level configure: honor a pending initial size, run the
    /// frame creation/drop policy, emit occlusion, compute the new size,
    /// store the configure, and resize when needed.  Returns whether the
    /// window must redraw.
    #[verifier::rlimit(100)]
    pub fn configure_xdg(
        &mut self,
        configure: Configure,
        events: &mut Vec<WindowEvent>,
        requests: &mut Vec<Request>,
    ) -> (redraw: bool)
        requires
            old(self).wf(),
            configure.wf(),
            old(self).frame_attempts < u64::MAX,
            old(self).is_xdg() ==> (old(self).initial_size matches Some(s) ==> positive(
                spec_size_to_logical(s, old(self).scale_factor),
            )),
        ensures
            !old(self).is_xdg() ==> {
                &&& *final(self) == *old(self)
                &&& final(events)@ == old(events)@
                &&& final(requests)@ == old(requests)@
                &&& !redraw
            },
            old(self).is_xdg() ==> {
                let pre = *old(self);
                let wants = pre.spec_wants_frame(configure);
                let needs = pre.spec_needs_redraw(configure);
                let new_size = pre.spec_configure_new_size(configure);
                &&& redraw == needs
                &&& *final(self) == (WindowState {
                    shell: ShellVariant::TopLevel(
                        (TopLevelState {
                            last_configure: Some(configure),
                            frame: final(self).tl().frame,
                            csd_fails: pre.tl().csd_fails || (wants && pre.caps.csd is Failing),
                            stateless_size: if needs && configure.spec_is_stateless() {
                                new_size
                            } else {
                                pre.spec_seeded_stateless()
                            },
                            ..pre.tl()
                        }),
                    ),
                    size: if needs {
                        new_size
                    } else {
                        pre.spec_seeded_size()
                    },
                    initial_size: None,
                    frame_attempts: final(self).frame_attempts,
                    ..pre
                })
                &&& final(self).frame_attempts == pre.frame_attempts + (if wants {
                    1int
                } else {
                    0int
                })
                &&& (if wants {
                    match pre.caps.csd {
                        CsdSupport::Available { metrics, themed } => final(self).tl().frame
                            matches Some(f) && spec_created_frame_ok(
                            f,
                            metrics,
                            themed,
                            pre.theme,
                            pre.title@,
                            pre.scale_factor,
                            pre.tl().decorate,
                            configure.state,
                            needs,
                            new_size,
                        ),
                        _ => final(self).tl().frame == pre.tl().frame,
                    }
                } else if configure.decoration_mode == DecorationMode::Server {
                    final(self).tl().frame is None
                } else {
                    match pre.tl().frame {
                        None => final(self).tl().frame is None,
                        Some(f0) => final(self).tl().frame == Some(
                            spec_frame_evolved(f0, configure.state, needs, new_size),
                        ),
                    }
                })
                &&& final(events)@ == old(events)@ + pre.spec_occluded_events(configure)
                &&& final(requests)@ == old(requests)@ + (if needs {
                    spec_resize_requests(
                        pre.transparent,
                        true,
                        pre.spec_borders_after_policy(configure),
                        pre.caps.viewport,
                        new_size,
                    )
                } else {
                    Seq::<Request>::empty()
                })
                &&& final(self).wf()
            },
    {
        if let ShellVariant::LayerOverlay(_) = &self.shell {
            return false;
        }
        self.prepare_configure(configure);
        proof {
            let pre = *old(self);
            assert(self.spec_borders() == pre.spec_borders_after_policy(configure));
            assert(self.spec_frame() is Some == pre.spec_has_frame_after_policy(configure));
        }

        // Emit the occlusion event on a suspension change.
        let occluded = configure.state.suspended;
        let prev = match &self.shell {
            ShellVariant::TopLevel(tl) => match &tl.last_configure {
                Some(c) => c.state.suspended,
                None => false,
            },
            ShellVariant::LayerOverlay(_) => false,
        };
        if prev != occluded {
            events.push(WindowEvent::Occluded(occluded));
        }
        proof {
            assert(events@ =~= old(events)@ + old(self).spec_occluded_events(configure));
        }

        // Compute the new inner size, pushing the state flags into the
        // frame on the way.
        let cur_size = self.size;
        let new_size = self.compute_configure_size(configure);
        proof {
            assert(new_size == old(self).spec_configure_new_size(configure));
        }

        // Whether the state change alone forces a resize.
        let state_change_requires_resize = match &self.shell {
            ShellVariant::TopLevel(tl) => match &tl.last_configure {
                Some(p) => p.state.maximized != configure.state.maximized || p.state.fullscreen
                    != configure.state.fullscreen || p.state.tiled != configure.state.tiled,
                None => true,
            },
            ShellVariant::LayerOverlay(_) => true,
        };

        // Store the configure before resizing, since the resize reads it.
        match &mut self.shell {
            ShellVariant::TopLevel(tl) => {
                tl.last_configure = Some(configure);
            },
            ShellVariant::LayerOverlay(_) => {},
        }

        proof {
            assert((state_change_requires_resize || new_size != cur_size) == old(
                self,
            ).spec_needs_redraw(configure));
        }
        if state_change_requires_resize || new_size != cur_size {
            self.resize(new_size, requests);
            true
        } else {
            false
        }
    }

    /// Apply one layer configure: a zero axis keeps the current value, the
    /// configure is stored, and the surface always resizes and redraws.
    pub fn configure_layer(&mut self, configure: LayerConfigure, requests: &mut Vec<Request>) -> (redraw: bool)
        requires
            old(self).wf(),
        ensures
            redraw,
            old(self).is_xdg() ==> {
                &&& *final(self) == *old(self)
                &&& final(requests)@ == old(requests)@
            },
            !old(self).is_xdg() ==> {
                let new_size = spec_layer_new_size(configure, old(self).size);
                &&& *final(self) == (WindowState {
                    shell: ShellVariant::LayerOverlay(
                        (LayerState { last_configure: Some(configure) }),
                    ),
                    size: new_size,
                    ..*old(self)
                })
                &&& final(requests)@ == old(requests)@ + spec_resize_requests(
                    old(self).transparent,
                    false,
                    FrameMetrics::zero(),
                    old(self).caps.viewport,
                    new_size,
                )
                &&& final(self).wf()
            },
    {
        let cur = self.size;
        let new_size = match &mut self.shell {
            ShellVariant::TopLevel(_) => {
                return true;
            },
            ShellVariant::LayerOverlay(l) => {
                let width = if configure.new_width == 0 {
                    cur.width
                } else {
                    configure.new_width
                };
                let height = if configure.new_height == 0 {
                    cur.height
                } else {
                    configure.new_height
                };
                l.last_configure = Some(configure);
                LogicalSize { width, height }
            },
        };
        self.resize(new_size, requests);
        true
    }

    /// Try to resize the window at the user's request; honored only while
    /// no size-dictating state applies.  Returns the resulting physical
    /// inner size.
    pub fn request_inner_size(&mut self, inner_size: Size, requests: &mut Vec<Request>) -> (r:
        PhysicalSize)
        requires
            old(self).wf(),
            positive(spec_size_to_logical(inner_size, old(self).scale_factor)),
        ensures
            ({
                let resizes = !old(self).is_xdg() || match old(self).tl().last_configure {
                    Some(c) => c.spec_is_stateless(),
                    None => true,
                };
                let target = spec_size_to_logical(inner_size, old(self).scale_factor);
                &&& (resizes && old(self).is_xdg() ==> *final(self) == (WindowState {
                    size: target,
                    shell: ShellVariant::TopLevel(spec_tl_after_resize(old(self).tl(), target)),
                    ..*old(self)
                }))
                &&& (resizes && !old(self).is_xdg() ==> *final(self) == (WindowState {
                    size: target,
                    ..*old(self)
                }))
                &&& (resizes ==> final(requests)@ == old(requests)@ + spec_resize_requests(
                    old(self).transparent,
                    old(self).is_xdg(),
                    old(self).spec_borders(),
                    old(self).caps.viewport,
                    target,
                ))
                &&& (!resizes ==> *final(self) == *old(self) && final(requests)@ == old(requests)@)
                &&& r == crate::dpi::spec_size_to_physical(
                    final(self).size,
                    old(self).scale_factor,
                )
                &&& final(self).wf()
            }),
    {
        let scale = self.scale_factor;
        let resizes = match &self.shell {
            ShellVariant::TopLevel(tl) => match &tl.last_configure {
                Some(c) => c.is_stateless(),
                None => true,
            },
            ShellVariant::LayerOverlay(_) => true,
        };
        if resizes {
            let target = inner_size.to_logical(scale);
            self.resize(target, requests);
        }
        crate::dpi::logical_to_physical_rounded(self.inner_size(), scale)
    }

    /// Remove a text input from the window.
    pub fn text_input_left(&mut self, text_input: u32)
        ensures
            *final(self) == (WindowState { text_inputs: final(self).text_inputs, ..*old(self) }),
            (exists|j: int|
                0 <= j < old(self).text_inputs@.len() && old(self).text_inputs@[j]
                    == text_input) ==> {
                let j = choose|j: int|
                    0 <= j < old(self).text_inputs@.len() && old(self).text_inputs@[j]
                        == text_input && (forall|k: int|
                        0 <= k < j ==> old(self).text_inputs@[k] != text_input);
                final(self).text_inputs@ == old(self).text_inputs@.remove(j)
            },
            !old(self).text_inputs@.contains(text_input) ==> final(self).text_inputs@ == old(
                self,
            ).text_inputs@,
    {
        let n = self.text_inputs.len();
        let mut i: usize = 0;
        while i < n
            invariant
                i <= n,
                n == self.text_inputs@.len(),
                forall|j: int| 0 <= j < i ==> self.text_inputs@[j] != text_input,
                *self == *old(self),
            decreases n - i,
        {
            if self.text_inputs[i] == text_input {
                self.text_inputs.remove(i);
                proof {
                    let j = choose|j: int|
                        0 <= j < old(self).text_inputs@.len() && old(self).text_inputs@[j]
                            == text_input && (forall|k: int|
                            0 <= k < j ==> old(self).text_inputs@[k] != text_input);
                    assert(j == i as int);
                }
                return ;
            }
            i = i + 1;
        }
    }
}

} // verus!
