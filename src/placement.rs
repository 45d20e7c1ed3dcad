use vstd::prelude::*;

use crate::geometry::AnchorPoint;

verus! {

/// Outer size of a window, in physical pixels.
#[derive(Clone, Copy, Debug, PartialEq, Eq, Structural)]
pub struct WindowSize {
    pub width: u32,
    pub height: u32,
}

/// Width assumed for a window whose outer size the platform cannot report.
pub const DEFAULT_WINDOW_WIDTH: u32 = 400;

/// Height assumed for a window whose outer size the platform cannot report.
pub const DEFAULT_WINDOW_HEIGHT: u32 = 500;

/// Where to put the window before showing it.
#[derive(Clone, Copy, Debug, PartialEq, Eq, Structural)]
pub enum Placement {
    /// Top-left corner at this absolute screen position.
    At { x: i64, y: i64 },
    /// Top centre of the screen that holds the window, as the platform
    /// computes it.
    TopCenter,
}

/// The size used for centring: the reported one, else the default.
pub open spec fn effective_size(outer_size: Option<WindowSize>) -> WindowSize {
    match outer_size {
        Some(s) => s,
        None => WindowSize { width: DEFAULT_WINDOW_WIDTH, height: DEFAULT_WINDOW_HEIGHT },
    }
}

/// The placement of a window centred horizontally under `anchor`, or the
/// top-centre fallback when no anchor is known.
pub open spec fn origin_for(anchor: Option<AnchorPoint>, outer_size: Option<WindowSize>) -> Placement {
    match anchor {
        Some(a) => Placement::At {
            x: (a.x - effective_size(outer_size).width / 2) as i64,
            y: a.y,
        },
        None => Placement::TopCenter,
    }
}

/// The centred origin is representable.
pub open spec fn origin_fits(anchor: Option<AnchorPoint>, outer_size: Option<WindowSize>) -> bool {
    match anchor {
        Some(a) => a.x - effective_size(outer_size).width / 2 >= i64::MIN,
        None => true,
    }
}

/// The outer size to centre with: `outer_size`, or the default size when the
/// platform could not report one.
pub fn size_or_default(outer_size: Option<WindowSize>) -> (r: WindowSize)
    ensures
        r == effective_size(outer_size),
{
    match outer_size {
        Some(s) => s,
        None => WindowSize { width: DEFAULT_WINDOW_WIDTH, height: DEFAULT_WINDOW_HEIGHT },
    }
}

/// Where to place the window: centred horizontally under `anchor` at the
/// anchor's height, or at the top centre of its screen when no anchor is
/// known.
pub fn compute_window_origin(anchor: Option<AnchorPoint>, outer_size: Option<WindowSize>) -> (r:
    Placement)
    requires
        origin_fits(anchor, outer_size),
    ensures
        r == origin_for(anchor, outer_size),
        anchor is None <==> r is TopCenter,
{
    match anchor {
        Some(a) => {
            let size = size_or_default(outer_size);
            let half: i64 = (size.width / 2) as i64;
            Placement::At { x: a.x - half, y: a.y }
        },
        None => Placement::TopCenter,
    }
}

} // verus!
