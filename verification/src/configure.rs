//! Configure events proposed by the compositor.
use vstd::prelude::*;

verus! {

/// Window-state flags carried by a top-level configure.
#[derive(Debug, Clone, Copy, PartialEq, Eq, Structural)]
pub struct StateFlags {
    pub maximized: bool,
    pub fullscreen: bool,
    pub tiled: bool,
    pub suspended: bool,
    pub activated: bool,
}

impl StateFlags {
    /// Flags with nothing set.
    pub fn empty() -> (f: StateFlags)
        ensures
            f == (StateFlags {
                maximized: false,
                fullscreen: false,
                tiled: false,
                suspended: false,
                activated: false,
            }),
    {
        StateFlags { maximized: false, fullscreen: false, tiled: false, suspended: false, activated: false }
    }
}

/// Whether two flag sets differ outside of `activated` and `suspended`,
/// the two flags that never force a resize by themselves.
pub open spec fn flags_differ_beyond_activation(a: StateFlags, b: StateFlags) -> bool {
    a.maximized != b.maximized || a.fullscreen != b.fullscreen || a.tiled != b.tiled
}

/// Who draws the window decorations.
#[derive(Debug, Clone, Copy, PartialEq, Eq, Structural)]
pub enum DecorationMode {
    /// The client draws its own frame.
    Client,
    /// The compositor draws the frame.
    Server,
}

/// Suggested upper bounds on the window size, as handed down by the
/// compositor; an axis of zero means no bound on that axis.
#[derive(Debug, Clone, Copy, PartialEq, Eq, Structural)]
pub struct SuggestedBounds {
    pub width: u32,
    pub height: u32,
}

/// A configure proposed by the compositor for a top-level window.
#[derive(Debug, Clone, Copy, PartialEq, Eq, Structural)]
pub struct Configure {
    /// The proposed size; an unset axis means the client decides.
    pub new_width: Option<u32>,
    pub new_height: Option<u32>,

    /// The window-state flags.
    pub state: StateFlags,

    /// The negotiated decoration mode.
    pub decoration_mode: DecorationMode,

    /// Suggested upper bounds on the window size.
    pub suggested_bounds: Option<SuggestedBounds>,
}

impl Configure {
    /// A configure is well formed when every given size axis is positive,
    /// as the protocol carries them in non-zero integers.
    pub open spec fn wf(&self) -> bool {
        &&& (self.new_width matches Some(w) ==> w >= 1)
        &&& (self.new_height matches Some(h) ==> h >= 1)
    }

    /// True iff none of the maximized, fullscreen or tiled flags is set,
    /// so the client is free to pick its own size.
    pub open spec fn spec_is_stateless(&self) -> bool {
        !(self.state.maximized || self.state.fullscreen || self.state.tiled)
    }

    /// Whether the window is free of size-dictating states.
    pub fn is_stateless(&self) -> (r: bool)
        ensures
            r == self.spec_is_stateless(),
    {
        !(self.state.maximized || self.state.fullscreen || self.state.tiled)
    }
}

/// A configure proposed by the compositor for a layer surface.
///
/// A zero on an axis means "keep the current value on that axis".
#[derive(Debug, Clone, Copy, PartialEq, Eq, Structural)]
pub struct LayerConfigure {
    pub new_width: u32,
    pub new_height: u32,
}

} // verus!
