//! Points and axis-aligned rectangles in screen coordinates.

use vstd::prelude::*;

verus! {

/// A screen position. Positions may lie outside the frame, on any side.
#[derive(Clone, Copy, Debug, PartialEq, Eq, Structural)]
pub struct Point {
    pub x: i32,
    pub y: i32,
}

/// An axis-aligned rectangle: origin `(x, y)`, extent `w` by `h`.
///
/// It covers the half-open ranges `[x, x + w)` and `[y, y + h)`.
#[derive(Clone, Copy, Debug, PartialEq, Eq, Structural)]
pub struct Rect {
    pub x: i64,
    pub y: i64,
    pub w: u64,
    pub h: u64,
}

/// The smaller of two integers.
pub open spec fn min_int(a: int, b: int) -> int {
    if a <= b { a } else { b }
}

/// The larger of two integers.
pub open spec fn max_int(a: int, b: int) -> int {
    if a <= b { b } else { a }
}

/// The distance between two integers.
pub open spec fn dist_int(a: int, b: int) -> int {
    if a <= b { b - a } else { a - b }
}

/// `v` moved to the nearest value in `[low, high]`.
pub open spec fn clamp_range(v: int, low: int, high: int) -> int {
    if v < low { low } else if v > high { high } else { v }
}

/// `v` moved to the nearest value in `[0, limit]`.
pub open spec fn clamp_coord(v: int, limit: int) -> int {
    clamp_range(v, 0, limit)
}

impl Rect {
    pub open spec fn left(self) -> int {
        self.x as int
    }

    pub open spec fn top(self) -> int {
        self.y as int
    }

    /// The first column to the right of the rectangle.
    pub open spec fn right(self) -> int {
        self.x + self.w
    }

    /// The first row below the rectangle.
    pub open spec fn bottom(self) -> int {
        self.y + self.h
    }

    pub open spec fn area(self) -> int {
        self.w * self.h
    }

    /// The far edges are coordinates that an `i64` can hold.
    pub open spec fn well_formed(self) -> bool {
        self.right() <= i64::MAX && self.bottom() <= i64::MAX
    }

    /// The position `(px, py)` lies inside the rectangle.
    pub open spec fn contains(self, px: int, py: int) -> bool {
        self.left() <= px < self.right() && self.top() <= py < self.bottom()
    }

    /// Every edge of `self` lies between the edges of `outer`.
    pub open spec fn within(self, outer: Rect) -> bool {
        &&& outer.left() <= self.left()
        &&& self.right() <= outer.right()
        &&& outer.top() <= self.top()
        &&& self.bottom() <= outer.bottom()
    }

    /// The rectangle with the given edges, for edges that a `Rect` can hold.
    pub open spec fn from_edges(left: int, top: int, right: int, bottom: int) -> Rect {
        Rect { x: left as i64, y: top as i64, w: (right - left) as u64, h: (bottom - top) as u64 }
    }

    /// `self` with each edge moved to the nearest coordinate of `frame`:
    /// the part of `self` inside `frame`, or, where the two do not meet, a
    /// rectangle without area on the nearest edge of `frame`.
    pub open spec fn spec_clip(self, frame: Rect) -> Rect {
        Rect::from_edges(
            clamp_range(self.left(), frame.left(), frame.right()),
            clamp_range(self.top(), frame.top(), frame.bottom()),
            clamp_range(self.right(), frame.left(), frame.right()),
            clamp_range(self.bottom(), frame.top(), frame.bottom()),
        )
    }

    /// Clips the rectangle to `frame`.
    #[verifier::when_used_as_spec(spec_clip)]
    pub fn clip(self, frame: Rect) -> (clipped: Rect)
        requires
            frame.well_formed(),
        ensures
            clipped == self.spec_clip(frame),
            clipped.within(frame),
            clipped.well_formed(),
            self.within(frame) ==> clipped == self,
    {
        let frame_right: i64 = (frame.x as i128 + frame.w as i128) as i64;
        let frame_bottom: i64 = (frame.y as i128 + frame.h as i128) as i64;
        let left: i64 = clamp_between(self.x as i128, frame.x, frame_right);
        let top: i64 = clamp_between(self.y as i128, frame.y, frame_bottom);
        let right: i64 = clamp_between(self.x as i128 + self.w as i128, frame.x, frame_right);
        let bottom: i64 = clamp_between(self.y as i128 + self.h as i128, frame.y, frame_bottom);
        Rect {
            x: left,
            y: top,
            w: (right as i128 - left as i128) as u64,
            h: (bottom as i128 - top as i128) as u64,
        }
    }

    pub open spec fn spec_is_empty(&self) -> bool {
        self.w == 0 || self.h == 0
    }

    /// Whether the rectangle covers no position at all.
    #[verifier::when_used_as_spec(spec_is_empty)]
    pub fn is_empty(&self) -> (empty: bool)
        ensures
            empty == self.spec_is_empty(),
    {
        self.w == 0 || self.h == 0
    }

    /// The frame of an image of the given size: origin `(0, 0)`, the image's extent.
    pub open spec fn spec_of_size(width: u32, height: u32) -> Rect {
        Rect { x: 0, y: 0, w: width as u64, h: height as u64 }
    }

    #[verifier::when_used_as_spec(spec_of_size)]
    pub fn of_size(width: u32, height: u32) -> (frame: Rect)
        ensures
            frame == Rect::spec_of_size(width, height),
    {
        Rect { x: 0, y: 0, w: width as u64, h: height as u64 }
    }
}

/// The rectangle spanned by two corner points given in any order.
pub open spec fn normalize_spec(p0: Point, p1: Point) -> Rect {
    Rect {
        x: min_int(p0.x as int, p1.x as int) as i64,
        y: min_int(p0.y as int, p1.y as int) as i64,
        w: dist_int(p0.x as int, p1.x as int) as u64,
        h: dist_int(p0.y as int, p1.y as int) as u64,
    }
}

/// `rect` clipped to the frame of an image `image_w` by `image_h`.
///
/// Each edge moves to the nearest coordinate of the frame, so a rectangle
/// that misses the frame altogether collapses onto the frame's nearest
/// edge or corner with no area left.
pub open spec fn clamp_spec(rect: Rect, image_w: u32, image_h: u32) -> Rect {
    Rect::from_edges(
        clamp_coord(rect.left(), image_w as int),
        clamp_coord(rect.top(), image_h as int),
        clamp_coord(rect.right(), image_w as int),
        clamp_coord(rect.bottom(), image_h as int),
    )
}

/// Spans the rectangle between two points, whichever way the drag went.
#[verifier::when_used_as_spec(normalize_spec)]
pub fn normalize(p0: Point, p1: Point) -> (rect: Rect)
    ensures
        rect == normalize_spec(p0, p1),
        rect.right() == max_int(p0.x as int, p1.x as int),
        rect.bottom() == max_int(p0.y as int, p1.y as int),
{
    let near_x: i64 = if p0.x <= p1.x { p0.x as i64 } else { p1.x as i64 };
    let far_x: i64 = if p0.x <= p1.x { p1.x as i64 } else { p0.x as i64 };
    let near_y: i64 = if p0.y <= p1.y { p0.y as i64 } else { p1.y as i64 };
    let far_y: i64 = if p0.y <= p1.y { p1.y as i64 } else { p0.y as i64 };
    Rect { x: near_x, y: near_y, w: (far_x - near_x) as u64, h: (far_y - near_y) as u64 }
}

/// One coordinate moved into `[low, high]`.
fn clamp_between(v: i128, low: i64, high: i64) -> (edge: i64)
    requires
        low <= high,
    ensures
        edge == clamp_range(v as int, low as int, high as int),
{
    if v < low as i128 {
        low
    } else if v > high as i128 {
        high
    } else {
        v as i64
    }
}

/// Clips a rectangle to the frame of an image `image_w` by `image_h`.
#[verifier::when_used_as_spec(clamp_spec)]
pub fn clamp_to_bounds(rect: Rect, image_w: u32, image_h: u32) -> (clipped: Rect)
    ensures
        clipped == clamp_spec(rect, image_w, image_h),
        clipped.left() == clamp_coord(rect.left(), image_w as int),
        clipped.top() == clamp_coord(rect.top(), image_h as int),
        clipped.right() == clamp_coord(rect.right(), image_w as int),
        clipped.bottom() == clamp_coord(rect.bottom(), image_h as int),
        clipped == rect.spec_clip(Rect::of_size(image_w, image_h)),
        clipped.within(Rect::of_size(image_w, image_h)),
{
    rect.clip(Rect::of_size(image_w, image_h))
}

/// A rectangle spanned by two points has no negative extent, its far edges
/// are the larger coordinates, and the order of the two points does not
/// matter.
pub proof fn lemma_normalize_symmetric(p0: Point, p1: Point)
    ensures
        normalize_spec(p0, p1) == normalize_spec(p1, p0),
        normalize_spec(p0, p1).w >= 0,
        normalize_spec(p0, p1).h >= 0,
        normalize_spec(p0, p1).well_formed(),
        normalize_spec(p0, p1).right() == max_int(p0.x as int, p1.x as int),
        normalize_spec(p0, p1).bottom() == max_int(p0.y as int, p1.y as int),
{
}

/// Clipping a second time to the same frame changes nothing.
pub proof fn lemma_clamp_idempotent(rect: Rect, image_w: u32, image_h: u32)
    ensures
        clamp_spec(clamp_spec(rect, image_w, image_h), image_w, image_h) == clamp_spec(
            rect,
            image_w,
            image_h,
        ),
{
}

/// A rectangle that already lies within the frame is left as it is.
pub proof fn lemma_clamp_within_is_identity(rect: Rect, image_w: u32, image_h: u32)
    requires
        rect.within(Rect::of_size(image_w, image_h)),
    ensures
        clamp_spec(rect, image_w, image_h) == rect,
{
}

/// The clipped rectangle covers exactly the positions of `rect` that lie
/// inside the frame.
pub proof fn lemma_clamp_is_intersection(rect: Rect, image_w: u32, image_h: u32, px: int, py: int)
    ensures
        clamp_spec(rect, image_w, image_h).contains(px, py) <==> rect.contains(px, py)
            && Rect::of_size(image_w, image_h).contains(px, py),
{
}

} // verus!
