use vstd::prelude::*;

verus! {

/// Distance in pixels kept between the bottom edge of the tray icon and the
/// top edge of the popup window.
pub const ANCHOR_MARGIN: u32 = 4;

/// Screen rectangle of the tray icon, in physical pixels.
#[derive(Clone, Copy, Debug, PartialEq, Eq, Structural)]
pub struct TrayRect {
    pub x: i32,
    pub y: i32,
    pub width: u32,
    pub height: u32,
}

/// A screen position, in physical pixels.
#[derive(Clone, Copy, Debug, PartialEq, Eq, Structural)]
pub struct AnchorPoint {
    pub x: i64,
    pub y: i64,
}

/// The anchor stored for an icon whose horizontal centre is `x`, whose top
/// edge is `y` and whose height is `height`: just below the icon.
pub open spec fn anchor_below(x: int, y: int, height: int) -> AnchorPoint {
    AnchorPoint { x: x as i64, y: (y + height + ANCHOR_MARGIN) as i64 }
}

/// The anchor derived from a tray rectangle: horizontally centred on the
/// icon, just below its bottom edge.
pub open spec fn rect_anchor(rect: TrayRect) -> AnchorPoint {
    anchor_below(rect.x + rect.width / 2, rect.y as int, rect.height as int)
}

/// What the cache holds after recording `rect`, whatever it held before.
pub open spec fn recorded(prior: Option<AnchorPoint>, rect: TrayRect) -> Option<AnchorPoint> {
    Some(rect_anchor(rect))
}

/// What the cache holds after recording each rectangle of `rects` in turn,
/// starting from an empty cache.
pub open spec fn cache_after(rects: Seq<TrayRect>) -> Option<AnchorPoint>
    decreases rects.len(),
{
    if rects.len() == 0 {
        None
    } else {
        recorded(cache_after(rects.drop_last()), rects.last())
    }
}

/// The last observed tray-icon anchor, if any. An anchor in the cache always
/// lies at or right of the leftmost `i32` column, so that centring a window
/// of any `u32` width on it stays within `i64`.
pub struct GeometryCache {
    anchor: Option<AnchorPoint>,
}

impl View for GeometryCache {
    type V = Option<AnchorPoint>;

    closed spec fn view(&self) -> Option<AnchorPoint> {
        self.anchor
    }
}

/// The anchors a cache can hold.
pub open spec fn anchor_in_range(anchor: Option<AnchorPoint>) -> bool {
    match anchor {
        Some(a) => a.x >= i32::MIN,
        None => true,
    }
}

impl GeometryCache {
    #[verifier::type_invariant]
    spec fn inv(self) -> bool {
        anchor_in_range(self.anchor)
    }

    /// An empty cache: no tray geometry observed yet.
    pub fn new() -> (r: GeometryCache)
        ensures
            r@ == None::<AnchorPoint>,
    {
        GeometryCache { anchor: None }
    }

    /// The cached anchor, or `None` if no tray geometry was ever recorded.
    pub fn read(&self) -> (r: Option<AnchorPoint>)
        ensures
            r == self@,
            anchor_in_range(r),
    {
        proof {
            use_type_invariant(self);
        }
        self.anchor
    }

    /// Overwrites the cached anchor with the one derived from `rect`.
    pub fn record(&mut self, rect: TrayRect)
        ensures
            final(self)@ == recorded(old(self)@, rect),
    {
        let centre: i64 = rect.x as i64 + (rect.width / 2) as i64;
        store_tray_position(self, centre, rect.y, rect.height);
    }
}

/// Stores the anchor below a tray icon whose horizontal centre is `x`, whose
/// top edge is `y` and whose height is `height`.
pub fn store_tray_position(cache: &mut GeometryCache, x: i64, y: i32, height: u32)
    requires
        x >= i32::MIN,
    ensures
        final(cache)@ == Some(anchor_below(x as int, y as int, height as int)),
{
    let below: i64 = y as i64 + height as i64 + ANCHOR_MARGIN as i64;
    cache.anchor = Some(AnchorPoint { x, y: below });
}

/// Recording a rectangle and reading the cache right after gives the point
/// centred horizontally on the rectangle, `ANCHOR_MARGIN` below its bottom
/// edge.
pub proof fn lemma_record_then_read(prior: Option<AnchorPoint>, rect: TrayRect)
    ensures
        recorded(prior, rect) == Some(
            AnchorPoint {
                x: (rect.x + rect.width / 2) as i64,
                y: (rect.y + rect.height + 4) as i64,
            },
        ),
        recorded(prior, rect).unwrap().x == rect.x + rect.width / 2,
        recorded(prior, rect).unwrap().y == rect.y + rect.height + 4,
{
}

/// The cache reads as absent exactly when nothing has been recorded.
pub proof fn lemma_absent_iff_never_recorded(rects: Seq<TrayRect>)
    ensures
        cache_after(rects) is None <==> rects.len() == 0,
{
}

/// Recording the same rectangle a second time leaves the cache as the first
/// recording left it.
pub proof fn lemma_record_idempotent(prior: Option<AnchorPoint>, rect: TrayRect)
    ensures
        recorded(recorded(prior, rect), rect) == recorded(prior, rect),
{
}

} // verus!
