//! The client-side decoration frame.
//!
//! The frame is a capability over drawing, hit-testing, borders and theming.
//! Two kinds exist behind one tagged union: a themed frame with a header bar
//! and buttons, and a minimal fallback frame whose borders only serve
//! resizing.  The window state holds at most one frame and queries it for
//! border math and click handling; the pixels themselves are drawn by the
//! surrounding program.
use vstd::prelude::*;

use crate::configure::StateFlags;
use crate::cursor::CursorIcon;
use crate::dpi::valid_scale;
use crate::ResizeDirection;
use crate::Theme;

verus! {

/// The top strip of the frame, in which a press starts a resize rather
/// than a move.
pub const RESIZE_BAND: u32 = 4;

/// How far from a corner a border press still counts as a corner resize.
pub const CORNER_BAND: u32 = 16;

/// An edge or corner of the frame, as used for interactive resizes.
#[derive(Debug, Clone, Copy, PartialEq, Eq, Structural)]
pub enum ResizeEdge {
    Top,
    Bottom,
    Left,
    Right,
    TopLeft,
    TopRight,
    BottomLeft,
    BottomRight,
}

/// The frame edge an interactive resize in the given direction grabs.
pub open spec fn spec_edge_of_direction(value: ResizeDirection) -> ResizeEdge {
    match value {
        ResizeDirection::North => ResizeEdge::Top,
        ResizeDirection::West => ResizeEdge::Left,
        ResizeDirection::NorthWest => ResizeEdge::TopLeft,
        ResizeDirection::NorthEast => ResizeEdge::TopRight,
        ResizeDirection::East => ResizeEdge::Right,
        ResizeDirection::SouthWest => ResizeEdge::BottomLeft,
        ResizeDirection::SouthEast => ResizeEdge::BottomRight,
        ResizeDirection::South => ResizeEdge::Bottom,
    }
}

impl core::convert::From<ResizeDirection> for ResizeEdge {
    fn from(value: ResizeDirection) -> Self {
        match value {
            ResizeDirection::North => ResizeEdge::Top,
            ResizeDirection::West => ResizeEdge::Left,
            ResizeDirection::NorthWest => ResizeEdge::TopLeft,
            ResizeDirection::NorthEast => ResizeEdge::TopRight,
            ResizeDirection::East => ResizeEdge::Right,
            ResizeDirection::SouthWest => ResizeEdge::BottomLeft,
            ResizeDirection::SouthEast => ResizeEdge::BottomRight,
            ResizeDirection::South => ResizeEdge::Bottom,
        }
    }
}

impl vstd::std_specs::convert::FromSpecImpl<ResizeDirection> for ResizeEdge {
    open spec fn obeys_from_spec() -> bool {
        true
    }

    open spec fn from_spec(value: ResizeDirection) -> Self {
        spec_edge_of_direction(value)
    }
}

/// The kind of click forwarded to the frame.
#[derive(Debug, Clone, Copy, PartialEq, Eq, Structural)]
pub enum FrameClick {
    /// The primary button.
    Normal,
    /// The secondary button.
    Alternate,
}

/// What the frame asks the window to do after a click.
#[derive(Debug, Clone, Copy, PartialEq, Eq, Structural)]
pub enum FrameAction {
    Minimize,
    Maximize,
    UnMaximize,
    Close,
    Move,
    Resize(ResizeEdge),
    ShowMenu(i32, i32),
}

/// The border sizes of a visible frame, in logical units.
#[derive(Debug, Clone, Copy, PartialEq, Eq, Structural)]
pub struct FrameMetrics {
    pub left: u32,
    pub right: u32,
    /// The top border; for a themed frame this is the header height.
    pub top: u32,
    pub bottom: u32,
}

impl FrameMetrics {
    /// Each border fits in an `i32`, so sums of two borders fit in a `u32`
    /// and offsets can be negated.
    pub open spec fn wf(&self) -> bool {
        &&& self.left <= 0x7fff_ffff
        &&& self.right <= 0x7fff_ffff
        &&& self.top <= 0x7fff_ffff
        &&& self.bottom <= 0x7fff_ffff
    }

    /// Metrics of a hidden frame: no borders at all.
    pub open spec fn zero() -> FrameMetrics {
        FrameMetrics { left: 0, right: 0, top: 0, bottom: 0 }
    }
}

/// What distinguishes the two frame implementations.
#[derive(Debug, Clone, PartialEq, Eq)]
pub enum FrameKind {
    /// A themed frame with a header bar, buttons and a title.
    Themed { theme: Option<Theme>, title: String },
    /// A minimal frame whose borders only serve resizing.
    Fallback,
}

/// The part of the decoration under a point.
#[derive(Debug, Clone, Copy, PartialEq, Eq, Structural)]
pub enum FramePart {
    Header,
    CloseButton,
    MaximizeButton,
    MinimizeButton,
    Edge(ResizeEdge),
}

/// The last pointer position reported to the frame, in frame-outer
/// coordinates.
#[derive(Debug, Clone, Copy, PartialEq, Eq, Structural)]
pub struct PointerSpot {
    pub x: i32,
    pub y: i32,
}

/// A client-side decoration frame.
#[derive(Debug, Clone)]
pub struct Frame {
    pub kind: FrameKind,

    /// The border sizes when the frame is visible.
    pub metrics: FrameMetrics,

    /// Whether the frame is hidden; a hidden frame takes no space.
    pub hidden: bool,

    /// Whether the frame needs to be drawn again.
    pub dirty: bool,

    /// Whether edge presses start interactive resizes.
    pub resizable: bool,

    /// The scale factor the frame is drawn at, in 1/120 steps.
    pub scale: u32,

    /// The content size the frame surrounds, set by `resize`.
    pub width: u32,
    pub height: u32,

    /// The window-state flags last pushed into the frame.
    pub state: StateFlags,

    /// Where the pointer last moved over the decorations.
    pub pointer: Option<PointerSpot>,
}

impl Frame {
    pub open spec fn wf(&self) -> bool {
        &&& self.metrics.wf()
        &&& valid_scale(self.scale)
    }

    /// The borders the frame takes up right now: none while hidden.
    pub open spec fn spec_borders(&self) -> FrameMetrics {
        if self.hidden {
            FrameMetrics::zero()
        } else {
            self.metrics
        }
    }

    /// The title shown by a themed frame; a fallback frame has none.
    pub open spec fn spec_title(&self) -> Option<Seq<char>> {
        match self.kind {
            FrameKind::Themed { title, .. } => Some(title@),
            FrameKind::Fallback => None,
        }
    }

    /// Whether the frame has a header bar with buttons.
    pub open spec fn is_themed(&self) -> bool {
        self.kind is Themed
    }

    /// Where the frame sits relative to the content surface: the window
    /// geometry offset handed to the compositor.
    pub open spec fn spec_location(&self) -> (i32, i32) {
        if self.hidden {
            (0, 0)
        } else {
            ((0 - self.metrics.left as int) as i32, (0 - self.metrics.top as int) as i32)
        }
    }

    /// One axis with the given border sum taken out; `None` when nothing
    /// positive is left.
    pub open spec fn spec_sub_axis(v: u32, b: int) -> Option<u32> {
        if v > b {
            Some((v - b) as u32)
        } else {
            None
        }
    }

    /// One axis with the given border sum added, clamped into `u32`.
    pub open spec fn spec_add_axis(v: u32, b: int) -> u32 {
        crate::dpi::sat_u32(v + b)
    }

    /// A fresh frame: visible, dirty, resizable, unsized, with an empty
    /// title when themed.
    pub fn new(metrics: FrameMetrics, themed: bool, theme: Option<Theme>) -> (f: Frame)
        requires
            metrics.wf(),
        ensures
            f.wf(),
            f.metrics == metrics,
            !f.hidden,
            f.dirty,
            f.resizable,
            f.scale == crate::dpi::SCALE_ONE,
            f.width == 0 && f.height == 0,
            f.pointer is None,
            f.is_themed() == themed,
            themed ==> f.kind == (FrameKind::Themed { theme, title: f.kind->title }),
            f.spec_title() matches Some(t) ==> t.len() == 0,
            f.state == (StateFlags {
                maximized: false,
                fullscreen: false,
                tiled: false,
                suspended: false,
                activated: false,
            }),
    {
        Frame {
            kind: if themed {
                FrameKind::Themed { theme, title: String::new() }
            } else {
                FrameKind::Fallback
            },
            metrics,
            hidden: false,
            dirty: true,
            resizable: true,
            scale: crate::dpi::SCALE_ONE,
            width: 0,
            height: 0,
            state: StateFlags::empty(),
            pointer: None,
        }
    }

    /// The borders the frame takes up right now.
    pub fn effective_metrics(&self) -> (m: FrameMetrics)
        ensures
            m == self.spec_borders(),
    {
        if self.hidden {
            FrameMetrics { left: 0, right: 0, top: 0, bottom: 0 }
        } else {
            self.metrics
        }
    }

    /// Take the current borders out of an outer size, axis by axis; an axis
    /// that the borders use up entirely comes back as nothing.
    pub fn subtract_borders(&self, width: u32, height: u32) -> (r: (Option<u32>, Option<u32>))
        requires
            self.wf(),
        ensures
            r.0 == Self::spec_sub_axis(
                width,
                self.spec_borders().left + self.spec_borders().right,
            ),
            r.1 == Self::spec_sub_axis(
                height,
                self.spec_borders().top + self.spec_borders().bottom,
            ),
    {
        let m = self.effective_metrics();
        let bw = m.left + m.right;
        let bh = m.top + m.bottom;
        (
            if width > bw {
                Some(width - bw)
            } else {
                None
            },
            if height > bh {
                Some(height - bh)
            } else {
                None
            },
        )
    }

    /// Add the current borders onto an inner size, clamping into `u32`.
    pub fn add_borders(&self, width: u32, height: u32) -> (r: (u32, u32))
        requires
            self.wf(),
        ensures
            r.0 == Self::spec_add_axis(width, self.spec_borders().left + self.spec_borders().right),
            r.1 == Self::spec_add_axis(height, self.spec_borders().top + self.spec_borders().bottom),
    {
        let m = self.effective_metrics();
        let bw = m.left + m.right;
        let bh = m.top + m.bottom;
        (
            if width > u32::MAX - bw {
                u32::MAX
            } else {
                width + bw
            },
            if height > u32::MAX - bh {
                u32::MAX
            } else {
                height + bh
            },
        )
    }

    /// Set the title shown by a themed frame; a fallback frame ignores it.
    pub fn set_title(&mut self, title: &str)
        ensures
            old(self).is_themed() ==> {
                &&& *final(self) == (Frame { kind: final(self).kind, dirty: true, ..*old(self) })
                &&& final(self).spec_title() == Some(title@)
                &&& final(self).kind->Themed_theme == old(self).kind->Themed_theme
            },
            !old(self).is_themed() ==> *final(self) == *old(self),
    {
        match &mut self.kind {
            FrameKind::Themed { title: t, .. } => {
                *t = title.to_owned();
                self.dirty = true;
            },
            FrameKind::Fallback => {},
        }
    }

    /// Set the scale the frame is drawn at.
    pub fn set_scaling_factor(&mut self, scale: u32)
        requires
            valid_scale(scale),
        ensures
            *final(self) == (Frame { scale, dirty: true, ..*old(self) }),
    {
        self.scale = scale;
        self.dirty = true;
    }

    /// Hide or show the frame; a hidden frame takes no space.
    pub fn set_hidden(&mut self, hidden: bool)
        ensures
            *final(self) == (Frame { hidden, dirty: true, ..*old(self) }),
    {
        self.hidden = hidden;
        self.dirty = true;
    }

    /// Push the window-state flags into the frame.
    pub fn update_state(&mut self, state: StateFlags)
        ensures
            *final(self) == (Frame { state, dirty: true, ..*old(self) }),
    {
        self.state = state;
        self.dirty = true;
    }

    /// Resize the frame around a new content size.
    pub fn resize(&mut self, width: u32, height: u32)
        requires
            width >= 1,
            height >= 1,
        ensures
            *final(self) == (Frame { width, height, dirty: true, ..*old(self) }),
    {
        self.width = width;
        self.height = height;
        self.dirty = true;
    }

    /// Whether edge presses start interactive resizes.
    pub fn set_resizable(&mut self, resizable: bool)
        ensures
            *final(self) == (Frame { resizable, dirty: true, ..*old(self) }),
    {
        self.resizable = resizable;
        self.dirty = true;
    }

    /// Change the theme of a themed frame; a fallback frame ignores it.
    pub fn set_config(&mut self, theme: Option<Theme>)
        ensures
            old(self).is_themed() ==> {
                &&& *final(self) == (Frame { kind: final(self).kind, dirty: true, ..*old(self) })
                &&& final(self).kind == (FrameKind::Themed {
                    theme,
                    title: final(self).kind->Themed_title,
                })
                &&& final(self).spec_title() == old(self).spec_title()
            },
            !old(self).is_themed() ==> *final(self) == *old(self),
    {
        match &mut self.kind {
            FrameKind::Themed { theme: t, .. } => {
                *t = theme;
                self.dirty = true;
            },
            FrameKind::Fallback => {},
        }
    }

    pub fn is_hidden(&self) -> (r: bool)
        ensures
            r == self.hidden,
    {
        self.hidden
    }

    pub fn is_dirty(&self) -> (r: bool)
        ensures
            r == self.dirty,
    {
        self.dirty
    }

    /// Draw the frame; the pixels are produced by the surrounding program,
    /// the state only stops being dirty.
    pub fn draw(&mut self) -> (r: bool)
        ensures
            *final(self) == (Frame { dirty: false, ..*old(self) }),
            r,
    {
        self.dirty = false;
        true
    }

    /// The window geometry offset of the frame.
    pub fn location(&self) -> (r: (i32, i32))
        requires
            self.wf(),
        ensures
            r == self.spec_location(),
    {
        if self.hidden {
            (0, 0)
        } else {
            (-(self.metrics.left as i32), -(self.metrics.top as i32))
        }
    }

    /// Which resize edge a point on the top strip belongs to.
    pub open spec fn spec_top_edge_at(x: int, outer_width: int) -> ResizeEdge {
        if x < CORNER_BAND {
            ResizeEdge::TopLeft
        } else if x >= outer_width - CORNER_BAND {
            ResizeEdge::TopRight
        } else {
            ResizeEdge::Top
        }
    }

    /// The part of the decoration under the point, in frame-outer
    /// coordinates; nothing when the point is over the content or outside
    /// the frame, or the frame is hidden.
    pub open spec fn spec_hit(&self, x: int, y: int) -> Option<FramePart> {
        let m = self.spec_borders();
        let l = m.left as int;
        let rb = m.right as int;
        let t = m.top as int;
        let b = m.bottom as int;
        let w = self.width as int;
        let h = self.height as int;
        let ow = l + w + rb;
        let oh = t + h + b;
        if self.hidden {
            None
        } else if !(0 <= x < ow && 0 <= y < oh) {
            None
        } else if l <= x < l + w && t <= y < t + h {
            None
        } else if y < t {
            if self.is_themed() {
                if y < RESIZE_BAND {
                    Some(FramePart::Edge(Self::spec_top_edge_at(x, ow)))
                } else {
                    if ow - rb - t <= x < ow - rb {
                        Some(FramePart::CloseButton)
                    } else if ow - rb - 2 * t <= x < ow - rb - t {
                        Some(FramePart::MaximizeButton)
                    } else if ow - rb - 3 * t <= x < ow - rb - 2 * t {
                        Some(FramePart::MinimizeButton)
                    } else {
                        Some(FramePart::Header)
                    }
                }
            } else {
                Some(FramePart::Edge(Self::spec_top_edge_at(x, ow)))
            }
        } else if y >= t + h {
            Some(
                FramePart::Edge(
                    if x < CORNER_BAND {
                        ResizeEdge::BottomLeft
                    } else if x >= ow - CORNER_BAND {
                        ResizeEdge::BottomRight
                    } else {
                        ResizeEdge::Bottom
                    },
                ),
            )
        } else if x < l {
            Some(
                FramePart::Edge(
                    if y < CORNER_BAND {
                        ResizeEdge::TopLeft
                    } else if y >= oh - CORNER_BAND {
                        ResizeEdge::BottomLeft
                    } else {
                        ResizeEdge::Left
                    },
                ),
            )
        } else {
            Some(
                FramePart::Edge(
                    if y < CORNER_BAND {
                        ResizeEdge::TopRight
                    } else if y >= oh - CORNER_BAND {
                        ResizeEdge::BottomRight
                    } else {
                        ResizeEdge::Right
                    },
                ),
            )
        }
    }

    /// The cursor icon shown over a frame part.
    pub open spec fn spec_icon_for(part: FramePart, resizable: bool) -> CursorIcon {
        match part {
            FramePart::Header => CursorIcon::Default,
            FramePart::CloseButton => CursorIcon::Pointer,
            FramePart::MaximizeButton => CursorIcon::Pointer,
            FramePart::MinimizeButton => CursorIcon::Pointer,
            FramePart::Edge(e) => if resizable {
                match e {
                    ResizeEdge::Top => CursorIcon::NResize,
                    ResizeEdge::Bottom => CursorIcon::SResize,
                    ResizeEdge::Left => CursorIcon::WResize,
                    ResizeEdge::Right => CursorIcon::EResize,
                    ResizeEdge::TopLeft => CursorIcon::NwResize,
                    ResizeEdge::TopRight => CursorIcon::NeResize,
                    ResizeEdge::BottomLeft => CursorIcon::SwResize,
                    ResizeEdge::BottomRight => CursorIcon::SeResize,
                }
            } else {
                CursorIcon::Default
            },
        }
    }

    /// The part of the decoration under the point.
    pub fn hit(&self, x: i32, y: i32) -> (r: Option<FramePart>)
        requires
            self.wf(),
        ensures
            r == self.spec_hit(x as int, y as int),
    {
        let m = self.effective_metrics();
        let l = m.left as i64;
        let rb = m.right as i64;
        let t = m.top as i64;
        let b = m.bottom as i64;
        let w = self.width as i64;
        let h = self.height as i64;
        let ow = l + w + rb;
        let oh = t + h + b;
        let x = x as i64;
        let y = y as i64;
        if self.hidden {
            None
        } else if !(0 <= x && x < ow && 0 <= y && y < oh) {
            None
        } else if l <= x && x < l + w && t <= y && y < t + h {
            None
        } else if y < t {
            let themed = matches!(self.kind, FrameKind::Themed { .. });
            if !themed || y < RESIZE_BAND as i64 {
                Some(FramePart::Edge(Self::top_edge_at(x, ow)))
            } else {
                if ow - rb - t <= x && x < ow - rb {
                    Some(FramePart::CloseButton)
                } else if ow - rb - 2 * t <= x && x < ow - rb - t {
                    Some(FramePart::MaximizeButton)
                } else if ow - rb - 3 * t <= x && x < ow - rb - 2 * t {
                    Some(FramePart::MinimizeButton)
                } else {
                    Some(FramePart::Header)
                }
            }
        } else if y >= t + h {
            Some(
                FramePart::Edge(
                    if x < CORNER_BAND as i64 {
                        ResizeEdge::BottomLeft
                    } else if x >= ow - CORNER_BAND as i64 {
                        ResizeEdge::BottomRight
                    } else {
                        ResizeEdge::Bottom
                    },
                ),
            )
        } else if x < l {
            Some(
                FramePart::Edge(
                    if y < CORNER_BAND as i64 {
                        ResizeEdge::TopLeft
                    } else if y >= oh - CORNER_BAND as i64 {
                        ResizeEdge::BottomLeft
                    } else {
                        ResizeEdge::Left
                    },
                ),
            )
        } else {
            Some(
                FramePart::Edge(
                    if y < CORNER_BAND as i64 {
                        ResizeEdge::TopRight
                    } else if y >= oh - CORNER_BAND as i64 {
                        ResizeEdge::BottomRight
                    } else {
                        ResizeEdge::Right
                    },
                ),
            )
        }
    }

    fn top_edge_at(x: i64, outer_width: i64) -> (r: ResizeEdge)
        requires
            0 <= x,
            0 <= outer_width <= 0x2_0000_0000i64,
        ensures
            r == Self::spec_top_edge_at(x as int, outer_width as int),
    {
        if x < CORNER_BAND as i64 {
            ResizeEdge::TopLeft
        } else if x >= outer_width - CORNER_BAND as i64 {
            ResizeEdge::TopRight
        } else {
            ResizeEdge::Top
        }
    }

    /// Record where the pointer moved over the decorations, and say which
    /// cursor belongs there.
    pub fn click_point_moved(&mut self, _timestamp_ms: u64, x: i32, y: i32) -> (r: Option<
        CursorIcon,
    >)
        requires
            old(self).wf(),
        ensures
            *final(self) == (Frame { pointer: Some(PointerSpot { x, y }), ..*old(self) }),
            r == match old(self).spec_hit(x as int, y as int) {
                Some(part) => Some(Self::spec_icon_for(part, old(self).resizable)),
                None => None::<CursorIcon>,
            },
    {
        let r = match self.hit(x, y) {
            Some(part) => Some(Self::icon_for(part, self.resizable)),
            None => None,
        };
        self.pointer = Some(PointerSpot { x, y });
        r
    }

    fn icon_for(part: FramePart, resizable: bool) -> (r: CursorIcon)
        ensures
            r == Self::spec_icon_for(part, resizable),
    {
        match part {
            FramePart::Header => CursorIcon::Default,
            FramePart::CloseButton => CursorIcon::Pointer,
            FramePart::MaximizeButton => CursorIcon::Pointer,
            FramePart::MinimizeButton => CursorIcon::Pointer,
            FramePart::Edge(e) => if resizable {
                match e {
                    ResizeEdge::Top => CursorIcon::NResize,
                    ResizeEdge::Bottom => CursorIcon::SResize,
                    ResizeEdge::Left => CursorIcon::WResize,
                    ResizeEdge::Right => CursorIcon::EResize,
                    ResizeEdge::TopLeft => CursorIcon::NwResize,
                    ResizeEdge::TopRight => CursorIcon::NeResize,
                    ResizeEdge::BottomLeft => CursorIcon::SwResize,
                    ResizeEdge::BottomRight => CursorIcon::SeResize,
                }
            } else {
                CursorIcon::Default
            },
        }
    }

    /// The pointer left the decorations.
    pub fn click_point_left(&mut self)
        ensures
            *final(self) == (Frame { pointer: None, ..*old(self) }),
    {
        self.pointer = None;
    }

    /// What a click at the last recorded pointer position asks for.
    pub open spec fn spec_click_action(&self, click: FrameClick, pressed: bool) -> Option<
        FrameAction,
    > {
        match self.pointer {
            None => None,
            Some(p) => match self.spec_hit(p.x as int, p.y as int) {
                None => None,
                Some(part) => if !pressed {
                    None
                } else {
                    match click {
                        FrameClick::Normal => match part {
                            FramePart::CloseButton => Some(FrameAction::Close),
                            FramePart::MaximizeButton => if self.state.maximized {
                                Some(FrameAction::UnMaximize)
                            } else {
                                Some(FrameAction::Maximize)
                            },
                            FramePart::MinimizeButton => Some(FrameAction::Minimize),
                            FramePart::Header => Some(FrameAction::Move),
                            FramePart::Edge(e) => if self.resizable {
                                Some(FrameAction::Resize(e))
                            } else {
                                None
                            },
                        },
                        FrameClick::Alternate => match part {
                            FramePart::Header => Some(FrameAction::ShowMenu(p.x, p.y)),
                            _ => None,
                        },
                    }
                },
            },
        }
    }

    /// Handle a click at the last recorded pointer position.
    pub fn on_click(&mut self, _timestamp_ms: u64, click: FrameClick, pressed: bool) -> (r: Option<
        FrameAction,
    >)
        requires
            old(self).wf(),
        ensures
            *final(self) == *old(self),
            r == old(self).spec_click_action(click, pressed),
    {
        match self.pointer {
            None => None,
            Some(p) => match self.hit(p.x, p.y) {
                None => None,
                Some(part) => if !pressed {
                    None
                } else {
                    match click {
                        FrameClick::Normal => match part {
                            FramePart::CloseButton => Some(FrameAction::Close),
                            FramePart::MaximizeButton => if self.state.maximized {
                                Some(FrameAction::UnMaximize)
                            } else {
                                Some(FrameAction::Maximize)
                            },
                            FramePart::MinimizeButton => Some(FrameAction::Minimize),
                            FramePart::Header => Some(FrameAction::Move),
                            FramePart::Edge(e) => if self.resizable {
                                Some(FrameAction::Resize(e))
                            } else {
                                None
                            },
                        },
                        FrameClick::Alternate => match part {
                            FramePart::Header => Some(FrameAction::ShowMenu(p.x, p.y)),
                            _ => None,
                        },
                    }
                },
            },
        }
    }
}

} // verus!
