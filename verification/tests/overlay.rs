use region_select::geometry::{Point, Rect};
use region_select::overlay::{
    border, mask_rects, overlay, MaskRects, Overlay, BORDER_COLOR, HINT_ALPHA, MASK_ALPHA,
    STROKE_WIDTH,
};
use region_select::selection_logic::SelectionState;

fn rect(x: i64, y: i64, w: u64, h: u64) -> Rect {
    Rect { x, y, w, h }
}

fn area(r: Rect) -> u128 {
    r.w as u128 * r.h as u128
}

fn holds(r: Rect, x: i64, y: i64) -> bool {
    let right = r.x as i128 + r.w as i128;
    let bottom = r.y as i128 + r.h as i128;
    r.x <= x && (x as i128) < right && r.y <= y && (y as i128) < bottom
}

#[test]
fn mask_rects_surround_the_selection() {
    let mask = mask_rects(rect(20, 30, 50, 40), rect(0, 0, 200, 150));
    assert_eq!(
        mask,
        MaskRects {
            top: rect(0, 0, 200, 30),
            bottom: rect(0, 70, 200, 80),
            left: rect(0, 30, 20, 40),
            right: rect(70, 30, 130, 40),
        }
    );
}

#[test]
fn mask_areas_add_up_to_the_frame() {
    let frame = rect(0, 0, 200, 150);
    let selections = [
        rect(20, 30, 50, 40),
        rect(0, 0, 200, 150),
        rect(0, 0, 0, 0),
        rect(199, 149, 1, 1),
        rect(0, 50, 200, 1),
        rect(100, 0, 1, 150),
    ];
    for &selection in &selections {
        let mask = mask_rects(selection, frame);
        let sum = area(mask.top) + area(mask.bottom) + area(mask.left) + area(mask.right)
            + area(selection);
        assert_eq!(sum, area(frame));
    }
}

#[test]
fn mask_covers_every_pixel_exactly_once() {
    let frame = rect(-3, 2, 12, 9);
    let selections = [rect(0, 4, 5, 3), rect(-3, 2, 12, 9), rect(4, 4, 0, 0), rect(8, 10, 1, 1)];
    for &selection in &selections {
        let mask = mask_rects(selection, frame);
        for y in -6..16 {
            for x in -6..16 {
                let count = [mask.top, mask.bottom, mask.left, mask.right, selection]
                    .iter()
                    .filter(|r| holds(**r, x, y))
                    .count();
                let expected = if holds(frame, x, y) { 1 } else { 0 };
                assert_eq!(count, expected);
            }
        }
    }
}

#[test]
fn mask_goes_round_the_visible_part_of_a_selection() {
    let frame = rect(0, 0, 200, 150);
    let mask = mask_rects(rect(-10, 140, 30, 50), frame);
    assert_eq!(
        mask,
        MaskRects {
            top: rect(0, 0, 200, 140),
            bottom: rect(0, 150, 200, 0),
            left: rect(0, 140, 0, 10),
            right: rect(20, 140, 180, 10),
        }
    );
    let outside = mask_rects(rect(500, 500, 10, 10), frame);
    let sum = area(outside.top) + area(outside.bottom) + area(outside.left) + area(outside.right);
    assert_eq!(sum, area(frame));
}

#[test]
fn border_runs_along_the_selection() {
    assert_eq!(border(rect(20, 30, 50, 40)), rect(20, 30, 50, 40));
    assert_eq!(border(rect(-5, 7, 0, 0)), rect(-5, 7, 0, 0));
}

#[test]
fn overlay_is_a_hint_while_nothing_is_selected() {
    let frame = rect(0, 0, 200, 150);
    assert_eq!(overlay(SelectionState::Idle, frame), Overlay::Hint { area: frame });
    assert_eq!(overlay(SelectionState::Cancelled, frame), Overlay::Hint { area: frame });
}

#[test]
fn overlay_masks_round_the_drag_and_the_selection() {
    let frame = rect(0, 0, 200, 150);
    let dragging = SelectionState::Dragging {
        start: Point { x: 70, y: 70 },
        current: Point { x: 20, y: 30 },
    };
    let expected = Overlay::Selection {
        mask: mask_rects(rect(20, 30, 50, 40), frame),
        border: rect(20, 30, 50, 40),
    };
    assert_eq!(overlay(dragging, frame), expected);
    let committed = SelectionState::Committed { rect: rect(20, 30, 50, 40) };
    assert_eq!(overlay(committed, frame), expected);
}

#[test]
fn overlay_constants() {
    assert_eq!(MASK_ALPHA, 128);
    assert_eq!(HINT_ALPHA, 72);
    assert_eq!(BORDER_COLOR, 0xFFFFFF);
    assert_eq!(STROKE_WIDTH, 1);
}
