//! The geometry of the dimming overlay: which rectangles to darken around
//! a selection, and where its outline runs. Nothing here touches pixels.

use vstd::prelude::*;
use crate::geometry::Rect;
use crate::selection_logic::SelectionState;

verus! {

/// Opacity of the mask outside a selection, out of 255.
pub const MASK_ALPHA: u8 = 128;

/// Opacity of the hint that dims the whole frame while nothing is selected, out of 255.
pub const HINT_ALPHA: u8 = 72;

/// Colour of the selection's outline, as `0xRRGGBB`.
pub const BORDER_COLOR: u32 = 0xFF_FFFF;

/// Width of the outline's stroke.
pub const STROKE_WIDTH: u32 = 1;

/// The four rectangles that surround a selection inside a frame.
///
/// `top` and `bottom` run the whole width of the frame; `left` and `right`
/// fill what is left beside the selection.
#[derive(Clone, Copy, Debug, PartialEq, Eq, Structural)]
pub struct MaskRects {
    pub top: Rect,
    pub bottom: Rect,
    pub left: Rect,
    pub right: Rect,
}

/// What to draw over the frame.
#[derive(Clone, Copy, Debug, PartialEq, Eq, Structural)]
pub enum Overlay {
    /// Nothing is selected: dim `area`, the whole frame, with `HINT_ALPHA`.
    Hint { area: Rect },
    /// Darken `mask` with `MASK_ALPHA` and stroke `border` in `BORDER_COLOR`.
    Selection { mask: MaskRects, border: Rect },
}

impl MaskRects {
    /// How many of the four rectangles hold the position `(px, py)`.
    pub open spec fn cover_count(self, px: int, py: int) -> int {
        (if self.top.contains(px, py) { 1int } else { 0 })
            + (if self.bottom.contains(px, py) { 1int } else { 0 })
            + (if self.left.contains(px, py) { 1int } else { 0 })
            + (if self.right.contains(px, py) { 1int } else { 0 })
    }

    pub open spec fn area(self) -> int {
        self.top.area() + self.bottom.area() + self.left.area() + self.right.area()
    }
}

/// The mask around the part of `selection` that lies inside `frame`.
pub open spec fn mask_rects_spec(selection: Rect, frame: Rect) -> MaskRects {
    let hole = selection.spec_clip(frame);
    MaskRects {
        top: Rect::from_edges(frame.left(), frame.top(), frame.right(), hole.top()),
        bottom: Rect::from_edges(frame.left(), hole.bottom(), frame.right(), frame.bottom()),
        left: Rect::from_edges(frame.left(), hole.top(), hole.left(), hole.bottom()),
        right: Rect::from_edges(hole.right(), hole.top(), frame.right(), hole.bottom()),
    }
}

/// The outline of a selection runs along the selection's own edges.
pub open spec fn border_spec(selection: Rect) -> Rect {
    selection
}

/// What to draw for `state` over `frame`.
pub open spec fn overlay_spec(state: SelectionState, frame: Rect) -> Overlay {
    match state.spec_shown_rect() {
        Some(shown) => Overlay::Selection {
            mask: mask_rects_spec(shown, frame),
            border: border_spec(shown),
        },
        None => Overlay::Hint { area: frame },
    }
}

/// Computes the four rectangles to darken around `selection` in `frame`.
#[verifier::when_used_as_spec(mask_rects_spec)]
pub fn mask_rects(selection: Rect, frame: Rect) -> (mask: MaskRects)
    requires
        frame.well_formed(),
    ensures
        mask == mask_rects_spec(selection, frame),
        mask.top.within(frame),
        mask.bottom.within(frame),
        mask.left.within(frame),
        mask.right.within(frame),
{
    let hole: Rect = selection.clip(frame);
    let frame_right: i64 = (frame.x as i128 + frame.w as i128) as i64;
    let frame_bottom: i64 = (frame.y as i128 + frame.h as i128) as i64;
    let hole_right: i64 = (hole.x as i128 + hole.w as i128) as i64;
    let hole_bottom: i64 = (hole.y as i128 + hole.h as i128) as i64;
    MaskRects {
        top: Rect { x: frame.x, y: frame.y, w: frame.w, h: (hole.y as i128 - frame.y as i128) as u64 },
        bottom: Rect {
            x: frame.x,
            y: hole_bottom,
            w: frame.w,
            h: (frame_bottom as i128 - hole_bottom as i128) as u64,
        },
        left: Rect { x: frame.x, y: hole.y, w: (hole.x as i128 - frame.x as i128) as u64, h: hole.h },
        right: Rect {
            x: hole_right,
            y: hole.y,
            w: (frame_right as i128 - hole_right as i128) as u64,
            h: hole.h,
        },
    }
}

/// The rectangle along which the outline of `selection` is stroked.
#[verifier::when_used_as_spec(border_spec)]
pub fn border(selection: Rect) -> (outline: Rect)
    ensures
        outline == border_spec(selection),
{
    selection
}

/// Decides what to draw over `frame` in the given state: mask and outline
/// around the committed or dragged rectangle, else the hint.
#[verifier::when_used_as_spec(overlay_spec)]
pub fn overlay(state: SelectionState, frame: Rect) -> (drawn: Overlay)
    requires
        frame.well_formed(),
    ensures
        drawn == overlay_spec(state, frame),
{
    match state.shown_rect() {
        Some(shown) => Overlay::Selection { mask: mask_rects(shown, frame), border: border(shown) },
        None => Overlay::Hint { area: frame },
    }
}

/// The product of two sums of three terms, multiplied out.
proof fn lemma_area_split(a: int, b: int, c: int, t: int, m: int, u: int)
    ensures
        (a + b + c) * (t + m + u) == (a + b + c) * t + (a + b + c) * u + a * m + c * m + b * m,
{
    assert((a + b + c) * (t + m + u) == (a + b + c) * t + (a + b + c) * m + (a + b + c) * u)
        by (nonlinear_arith);
    assert((a + b + c) * m == a * m + b * m + c * m) by (nonlinear_arith);
}

/// The mask and the clipped selection tile the frame: every position of
/// the frame lies in exactly one of the five rectangles, no position
/// outside the frame lies in any of them, and the five areas add up to the
/// area of the frame.
pub proof fn lemma_mask_tiles_frame(selection: Rect, frame: Rect)
    requires
        frame.well_formed(),
    ensures
        ({
            let mask = mask_rects_spec(selection, frame);
            let hole = selection.spec_clip(frame);
            &&& mask.area() + hole.area() == frame.area()
            &&& forall|px: int, py: int|
                frame.contains(px, py) ==> #[trigger] mask.cover_count(px, py) + (if hole.contains(
                    px,
                    py,
                ) { 1int } else { 0 }) == 1
            &&& forall|px: int, py: int|
                !frame.contains(px, py) ==> #[trigger] mask.cover_count(px, py) == 0
                    && !hole.contains(px, py)
        }),
{
    let mask = mask_rects_spec(selection, frame);
    let hole = selection.spec_clip(frame);
    lemma_area_split(
        hole.left() - frame.left(),
        hole.w as int,
        frame.right() - hole.right(),
        hole.top() - frame.top(),
        hole.h as int,
        frame.bottom() - hole.bottom(),
    );
    assert(frame.w == (hole.left() - frame.left()) + hole.w + (frame.right() - hole.right()));
    assert(frame.h == (hole.top() - frame.top()) + hole.h + (frame.bottom() - hole.bottom()));
}

/// For a selection inside the frame, the four mask rectangles and the
/// selection itself cover the frame exactly once: no gap, nothing covered
/// twice, and the areas add up.
pub proof fn lemma_mask_tiles_around_selection(selection: Rect, frame: Rect)
    requires
        frame.well_formed(),
        selection.within(frame),
    ensures
        ({
            let mask = mask_rects_spec(selection, frame);
            &&& mask.top.area() + mask.bottom.area() + mask.left.area() + mask.right.area()
                + selection.area() == frame.area()
            &&& forall|px: int, py: int|
                frame.contains(px, py) ==> #[trigger] mask.cover_count(px, py) + (
                if selection.contains(px, py) { 1int } else { 0 }) == 1
        }),
{
    assert(selection.spec_clip(frame) == selection);
    lemma_mask_tiles_frame(selection, frame);
}

} // verus!
