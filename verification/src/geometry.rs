//! The sizing policy: how a proposed configure becomes an inner size.
use vstd::prelude::*;

use crate::configure::Configure;
use crate::configure::LayerConfigure;
use crate::configure::StateFlags;
use crate::dpi::LogicalSize;
use crate::frame::FrameMetrics;

verus! {

/// One axis of a compositor-proposed outer size with the border sum taken
/// out, clamped to a minimum of one.
pub open spec fn spec_inner_axis(v: u32, borders: int) -> u32 {
    if v > borders {
        (v - borders) as u32
    } else {
        1u32
    }
}

/// The inner size proposed by a top-level configure, and whether the
/// suggested bounds apply to it.
///
/// When the compositor gives both axes, the decoration borders are taken
/// out and the bounds do not apply; otherwise the window falls back to its
/// stateless size when no size-dictating state is set, or keeps its current
/// size, and the bounds clamp the result.
pub open spec fn spec_proposed_size(
    c: Configure,
    borders: FrameMetrics,
    current: LogicalSize,
    stateless: LogicalSize,
) -> (LogicalSize, bool) {
    if c.new_width is Some && c.new_height is Some {
        (
            LogicalSize {
                width: spec_inner_axis(c.new_width->0, borders.left + borders.right),
                height: spec_inner_axis(c.new_height->0, borders.top + borders.bottom),
            },
            false,
        )
    } else if c.spec_is_stateless() {
        (stateless, true)
    } else {
        (current, true)
    }
}

/// One axis of the suggested bounds brought to inner units: a zero bound is
/// no bound, and with a frame present the borders are taken out, the bound
/// disappearing when they use it up.
pub open spec fn spec_bound_axis(bound: u32, borders: int, has_frame: bool) -> Option<u32> {
    if bound == 0 {
        None
    } else if has_frame {
        if bound > borders {
            Some((bound - borders) as u32)
        } else {
            None
        }
    } else {
        Some(bound)
    }
}

/// A proposed size clamped to the configure's suggested bounds, where such
/// bounds exist.
pub open spec fn spec_clamp_to_bounds(
    size: LogicalSize,
    c: Configure,
    borders: FrameMetrics,
    has_frame: bool,
) -> LogicalSize {
    match c.suggested_bounds {
        None => size,
        Some(b) => LogicalSize {
            width: match spec_bound_axis(b.width, borders.left + borders.right, has_frame) {
                Some(bw) => if size.width < bw {
                    size.width
                } else {
                    bw
                },
                None => size.width,
            },
            height: match spec_bound_axis(b.height, borders.top + borders.bottom, has_frame) {
                Some(bh) => if size.height < bh {
                    size.height
                } else {
                    bh
                },
                None => size.height,
            },
        },
    }
}

/// The inner size a top-level configure settles on: the proposed size,
/// clamped to the suggested bounds exactly when the compositor did not give
/// the size itself.
pub open spec fn spec_new_inner_size(
    c: Configure,
    borders: FrameMetrics,
    has_frame: bool,
    current: LogicalSize,
    stateless: LogicalSize,
) -> LogicalSize {
    let (proposed, constrain) = spec_proposed_size(c, borders, current, stateless);
    if constrain {
        spec_clamp_to_bounds(proposed, c, borders, has_frame)
    } else {
        proposed
    }
}

/// Whether the change of state flags alone forces a resize: any difference
/// outside of `activated` and `suspended` does, and the very first
/// configure always does.
pub open spec fn spec_state_change_requires_resize(
    last: Option<Configure>,
    new: StateFlags,
) -> bool {
    match last {
        None => true,
        Some(old) => crate::configure::flags_differ_beyond_activation(old.state, new),
    }
}

/// When the compositor supplies both width and height, the settled inner
/// size is the supplied size with the decoration borders taken out — the
/// supplied size itself when no borders are in effect — clamped to a
/// minimum of one on each axis, and the suggested bounds do not apply.
pub proof fn lemma_explicit_size_minus_borders(
    c: Configure,
    borders: FrameMetrics,
    has_frame: bool,
    current: LogicalSize,
    stateless: LogicalSize,
)
    requires
        c.wf(),
        c.new_width is Some,
        c.new_height is Some,
    ensures
        spec_new_inner_size(c, borders, has_frame, current, stateless) == (LogicalSize {
            width: if c.new_width->0 > borders.left + borders.right {
                (c.new_width->0 - (borders.left + borders.right)) as u32
            } else {
                1u32
            },
            height: if c.new_height->0 > borders.top + borders.bottom {
                (c.new_height->0 - (borders.top + borders.bottom)) as u32
            } else {
                1u32
            },
        }),
        borders == FrameMetrics::zero() ==> spec_new_inner_size(
            c,
            borders,
            has_frame,
            current,
            stateless,
        ) == (LogicalSize { width: c.new_width->0, height: c.new_height->0 }),
        spec_new_inner_size(c, borders, has_frame, current, stateless).width >= 1,
        spec_new_inner_size(c, borders, has_frame, current, stateless).height >= 1,
{
}

/// The four cases of layer sizing against a known prior size: zero keeps
/// the prior value on that axis, anything else replaces it.
pub proof fn lemma_layer_zero_axis_keeps_size(c: LayerConfigure, current: LogicalSize)
    ensures
        c.new_width == 0 && c.new_height == 0 ==> spec_layer_new_size(c, current) == current,
        c.new_width == 0 && c.new_height != 0 ==> spec_layer_new_size(c, current) == (LogicalSize {
            width: current.width,
            height: c.new_height,
        }),
        c.new_width != 0 && c.new_height == 0 ==> spec_layer_new_size(c, current) == (LogicalSize {
            width: c.new_width,
            height: current.height,
        }),
        c.new_width != 0 && c.new_height != 0 ==> spec_layer_new_size(c, current) == (LogicalSize {
            width: c.new_width,
            height: c.new_height,
        }),
{
}

/// The size a layer configure settles on: a zero axis keeps the current
/// value on that axis.
pub open spec fn spec_layer_new_size(c: LayerConfigure, current: LogicalSize) -> LogicalSize {
    LogicalSize {
        width: if c.new_width == 0 {
            current.width
        } else {
            c.new_width
        },
        height: if c.new_height == 0 {
            current.height
        } else {
            c.new_height
        },
    }
}

} // verus!
