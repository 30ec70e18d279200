//! The drag state machine: what each pointer or key event does to the
//! selection, and what the host has to do in response.

use vstd::prelude::*;
use crate::geometry::{clamp_spec, clamp_to_bounds, max_int, min_int, normalize, normalize_spec, Point, Rect};

verus! {

/// How far a repaint region reaches beyond the rectangles it covers, so
/// that border strokes are repainted too.
pub const DIRTY_MARGIN: u32 = 2;

/// Where a selection stands.
#[derive(Clone, Copy, Debug, PartialEq, Eq, Structural)]
pub enum SelectionState {
    /// Nothing is selected and no drag is under way.
    Idle,
    /// The primary button is held; the candidate rectangle spans `start` and `current`.
    Dragging { start: Point, current: Point },
    /// A selection has been made.
    Committed { rect: Rect },
    /// The session was called off; no event changes this state.
    Cancelled,
}

/// An input event, as the host delivers it.
#[derive(Clone, Copy, Debug, PartialEq, Eq, Structural)]
pub enum Event {
    PrimaryDown(Point),
    Move(Point),
    PrimaryUp(Point),
    SecondaryDown(Point),
    Escape,
}

/// How much of the frame the host has to paint again.
#[derive(Clone, Copy, Debug, PartialEq, Eq)]
pub enum Repaint {
    Nothing,
    Region(Rect),
    Everything,
}

/// What the host has to do after an event.
#[derive(Clone, Copy, Debug, PartialEq, Eq)]
pub struct Response {
    pub repaint: Repaint,
    /// Show the action menu anchored at this point.
    pub menu_at: Option<Point>,
    /// End the session.
    pub quit: bool,
}

impl Response {
    pub open spec fn spec_nothing() -> Response {
        Response { repaint: Repaint::Nothing, menu_at: None, quit: false }
    }

    pub open spec fn spec_repaint_all() -> Response {
        Response { repaint: Repaint::Everything, menu_at: None, quit: false }
    }

    /// Nothing to do.
    #[verifier::when_used_as_spec(spec_nothing)]
    pub fn nothing() -> (response: Response)
        ensures
            response == Response::spec_nothing(),
    {
        Response { repaint: Repaint::Nothing, menu_at: None, quit: false }
    }

    /// Paint the whole frame again.
    #[verifier::when_used_as_spec(spec_repaint_all)]
    pub fn repaint_all() -> (response: Response)
        ensures
            response == Response::spec_repaint_all(),
    {
        Response { repaint: Repaint::Everything, menu_at: None, quit: false }
    }
}

/// A drag counts as a selection only if it is more than one unit wide and
/// more than one unit high; anything less is taken for an accidental click.
pub open spec fn large_enough(rect: Rect) -> bool {
    rect.w > 1 && rect.h > 1
}

/// The smallest rectangle that covers `previous` and `next`, grown by
/// `DIRTY_MARGIN` on every side.
pub open spec fn dirty_spec(previous: Rect, next: Rect) -> Rect {
    Rect::from_edges(
        min_int(previous.left(), next.left()) - DIRTY_MARGIN,
        min_int(previous.top(), next.top()) - DIRTY_MARGIN,
        max_int(previous.right(), next.right()) + DIRTY_MARGIN,
        max_int(previous.bottom(), next.bottom()) + DIRTY_MARGIN,
    )
}

/// The primary button goes down at `p`: a new drag starts there, whatever
/// was selected before.
pub open spec fn pointer_down_spec(state: SelectionState, p: Point) -> (SelectionState, Response) {
    match state {
        SelectionState::Cancelled => (state, Response::nothing()),
        _ => (SelectionState::Dragging { start: p, current: p }, Response::repaint_all()),
    }
}

/// The pointer moves to `p`: a drag follows it, and the region that the
/// old and the new candidate rectangle touch has to be painted again.
pub open spec fn pointer_move_spec(state: SelectionState, p: Point) -> (SelectionState, Response) {
    match state {
        SelectionState::Dragging { start, current } => (
            SelectionState::Dragging { start, current: p },
            Response {
                repaint: Repaint::Region(
                    dirty_spec(normalize_spec(start, current), normalize_spec(start, p)),
                ),
                menu_at: None,
                quit: false,
            },
        ),
        _ => (state, Response::nothing()),
    }
}

/// The primary button is released at `p`: a drag ends, as a selection if
/// the rectangle from its start to `p` is large enough, else as nothing.
pub open spec fn pointer_up_spec(state: SelectionState, p: Point, image_w: u32, image_h: u32) -> (
    SelectionState,
    Response,
) {
    match state {
        SelectionState::Dragging { start, current } => if large_enough(normalize_spec(start, p)) {
            (
                SelectionState::Committed {
                    rect: clamp_spec(normalize_spec(start, current), image_w, image_h),
                },
                Response { repaint: Repaint::Everything, menu_at: Some(p), quit: false },
            )
        } else {
            (SelectionState::Idle, Response::repaint_all())
        },
        _ => (state, Response::nothing()),
    }
}

/// The secondary button goes down at `p`: unless a selection exists, the
/// whole frame becomes the selection; either way the menu opens at `p`.
pub open spec fn select_all_spec(state: SelectionState, p: Point, image_w: u32, image_h: u32) -> (
    SelectionState,
    Response,
) {
    match state {
        SelectionState::Cancelled => (state, Response::nothing()),
        SelectionState::Committed { rect } => (
            state,
            Response { repaint: Repaint::Nothing, menu_at: Some(p), quit: false },
        ),
        _ => (
            SelectionState::Committed { rect: Rect::of_size(image_w, image_h) },
            Response { repaint: Repaint::Everything, menu_at: Some(p), quit: false },
        ),
    }
}

/// The escape key: the session is called off.
pub open spec fn escape_spec(state: SelectionState) -> (SelectionState, Response) {
    (SelectionState::Cancelled, Response { repaint: Repaint::Nothing, menu_at: None, quit: true })
}

/// The state and the response that follow `event` in `state`.
pub open spec fn handle_spec(state: SelectionState, event: Event, image_w: u32, image_h: u32) -> (
    SelectionState,
    Response,
) {
    match event {
        Event::PrimaryDown(p) => pointer_down_spec(state, p),
        Event::Move(p) => pointer_move_spec(state, p),
        Event::PrimaryUp(p) => pointer_up_spec(state, p, image_w, image_h),
        Event::SecondaryDown(p) => select_all_spec(state, p, image_w, image_h),
        Event::Escape => escape_spec(state),
    }
}

/// Covers two rectangles spanned by screen points, with the margin.
fn dirty_region(previous: Rect, next: Rect) -> (dirty: Rect)
    requires
        i32::MIN <= previous.left() && previous.right() <= i32::MAX,
        i32::MIN <= previous.top() && previous.bottom() <= i32::MAX,
        i32::MIN <= next.left() && next.right() <= i32::MAX,
        i32::MIN <= next.top() && next.bottom() <= i32::MAX,
    ensures
        dirty == dirty_spec(previous, next),
{
    let margin: i64 = 2;
    let previous_right: i64 = previous.x + previous.w as i64;
    let previous_bottom: i64 = previous.y + previous.h as i64;
    let next_right: i64 = next.x + next.w as i64;
    let next_bottom: i64 = next.y + next.h as i64;
    let left: i64 = (if previous.x <= next.x { previous.x } else { next.x }) - margin;
    let top: i64 = (if previous.y <= next.y { previous.y } else { next.y }) - margin;
    let right: i64 = (if previous_right <= next_right { next_right } else { previous_right })
        + margin;
    let bottom: i64 = (if previous_bottom <= next_bottom { next_bottom } else { previous_bottom })
        + margin;
    Rect { x: left, y: top, w: (right - left) as u64, h: (bottom - top) as u64 }
}

impl SelectionState {
    /// The state before any input.
    pub fn new() -> (state: SelectionState)
        ensures
            state == SelectionState::Idle,
    {
        SelectionState::Idle
    }

    /// The committed rectangle, if there is one.
    pub open spec fn spec_selection(&self) -> Option<Rect> {
        match *self {
            SelectionState::Committed { rect } => Some(rect),
            _ => None,
        }
    }

    /// The rectangle to show: the committed one, else the candidate of a
    /// drag under way.
    pub open spec fn spec_shown_rect(&self) -> Option<Rect> {
        match *self {
            SelectionState::Committed { rect } => Some(rect),
            SelectionState::Dragging { start, current } => Some(normalize_spec(start, current)),
            _ => None,
        }
    }

    #[verifier::when_used_as_spec(spec_selection)]
    pub fn selection(&self) -> (made: Option<Rect>)
        ensures
            made == self.spec_selection(),
    {
        match *self {
            SelectionState::Committed { rect } => Some(rect),
            _ => None,
        }
    }

    #[verifier::when_used_as_spec(spec_shown_rect)]
    pub fn shown_rect(&self) -> (shown: Option<Rect>)
        ensures
            shown == self.spec_shown_rect(),
    {
        match *self {
            SelectionState::Committed { rect } => Some(rect),
            SelectionState::Dragging { start, current } => Some(normalize(start, current)),
            _ => None,
        }
    }

    /// Starts a drag at `p`.
    pub fn pointer_down(self, p: Point) -> (next: (SelectionState, Response))
        ensures
            next == pointer_down_spec(self, p),
    {
        match self {
            SelectionState::Cancelled => (self, Response::nothing()),
            _ => (SelectionState::Dragging { start: p, current: p }, Response::repaint_all()),
        }
    }

    /// Moves the free corner of a drag to `p` and reports the region to repaint.
    pub fn pointer_move(self, p: Point) -> (next: (SelectionState, Response))
        ensures
            next == pointer_move_spec(self, p),
            next.0.spec_selection() == self.spec_selection(),
    {
        match self {
            SelectionState::Dragging { start, current } => {
                let previous: Rect = normalize(start, current);
                let candidate: Rect = normalize(start, p);
                let dirty: Rect = dirty_region(previous, candidate);
                (
                    SelectionState::Dragging { start, current: p },
                    Response { repaint: Repaint::Region(dirty), menu_at: None, quit: false },
                )
            },
            _ => (self, Response::nothing()),
        }
    }

    /// Ends a drag at `p`, in an image `image_w` by `image_h`.
    pub fn pointer_up(self, p: Point, image_w: u32, image_h: u32) -> (next: (
        SelectionState,
        Response,
    ))
        ensures
            next == pointer_up_spec(self, p, image_w, image_h),
    {
        match self {
            SelectionState::Dragging { start, current } => {
                let released: Rect = normalize(start, p);
                if released.w > 1 && released.h > 1 {
                    let rect: Rect = clamp_to_bounds(normalize(start, current), image_w, image_h);
                    (
                        SelectionState::Committed { rect },
                        Response { repaint: Repaint::Everything, menu_at: Some(p), quit: false },
                    )
                } else {
                    (SelectionState::Idle, Response::repaint_all())
                }
            },
            _ => (self, Response::nothing()),
        }
    }

    /// Selects the whole frame unless a selection exists, and opens the menu at `p`.
    pub fn select_all(self, p: Point, image_w: u32, image_h: u32) -> (next: (
        SelectionState,
        Response,
    ))
        ensures
            next == select_all_spec(self, p, image_w, image_h),
            self.spec_selection().is_none() && self != SelectionState::Cancelled
                ==> next.0.spec_selection() == Some(Rect::of_size(image_w, image_h)),
    {
        match self {
            SelectionState::Cancelled => (self, Response::nothing()),
            SelectionState::Committed { rect } => (
                self,
                Response { repaint: Repaint::Nothing, menu_at: Some(p), quit: false },
            ),
            _ => (
                SelectionState::Committed { rect: Rect::of_size(image_w, image_h) },
                Response { repaint: Repaint::Everything, menu_at: Some(p), quit: false },
            ),
        }
    }

    /// Calls the session off.
    pub fn escape(self) -> (next: (SelectionState, Response))
        ensures
            next == escape_spec(self),
    {
        (
            SelectionState::Cancelled,
            Response { repaint: Repaint::Nothing, menu_at: None, quit: true },
        )
    }

    /// Applies one event.
    pub fn handle(self, event: Event, image_w: u32, image_h: u32) -> (next: (
        SelectionState,
        Response,
    ))
        ensures
            next == handle_spec(self, event, image_w, image_h),
    {
        match event {
            Event::PrimaryDown(p) => self.pointer_down(p),
            Event::Move(p) => self.pointer_move(p),
            Event::PrimaryUp(p) => self.pointer_up(p, image_w, image_h),
            Event::SecondaryDown(p) => self.select_all(p, image_w, image_h),
            Event::Escape => self.escape(),
        }
    }
}

/// The repaint region of a move covers the candidate rectangle before the
/// move and the one after it, each with a margin of at least two units on
/// every side.
pub proof fn lemma_dirty_region_covers(start: Point, current: Point, p: Point)
    ensures
        ({
            let previous = normalize_spec(start, current);
            let next = normalize_spec(start, p);
            let dirty = dirty_spec(previous, next);
            &&& DIRTY_MARGIN >= 2
            &&& dirty.left() + DIRTY_MARGIN <= previous.left()
            &&& dirty.left() + DIRTY_MARGIN <= next.left()
            &&& dirty.top() + DIRTY_MARGIN <= previous.top()
            &&& dirty.top() + DIRTY_MARGIN <= next.top()
            &&& previous.right() + DIRTY_MARGIN <= dirty.right()
            &&& next.right() + DIRTY_MARGIN <= dirty.right()
            &&& previous.bottom() + DIRTY_MARGIN <= dirty.bottom()
            &&& next.bottom() + DIRTY_MARGIN <= dirty.bottom()
        }),
{
}

/// Pressing the primary button on a finished selection starts a fresh
/// drag at the pressed point, and the old rectangle is gone for good:
/// neither the escape key nor a release that is too small brings back a
/// selection.
pub proof fn lemma_redrag_discards_selection(
    prior: Rect,
    p: Point,
    released: Point,
    image_w: u32,
    image_h: u32,
)
    ensures
        ({
            let pressed = pointer_down_spec(SelectionState::Committed { rect: prior }, p).0;
            &&& pressed == SelectionState::Dragging { start: p, current: p }
            &&& escape_spec(pressed).0.spec_selection().is_none()
            &&& !large_enough(normalize_spec(p, released)) ==> pointer_up_spec(
                pressed,
                released,
                image_w,
                image_h,
            ).0 == SelectionState::Idle
        }),
{
}

/// The menu opens only over a selection: after a drag was committed, or
/// on the secondary button, which selects the whole frame if nothing else
/// is selected.
pub proof fn lemma_menu_only_over_selection(
    state: SelectionState,
    event: Event,
    image_w: u32,
    image_h: u32,
)
    ensures
        handle_spec(state, event, image_w, image_h).1.menu_at.is_some() ==> handle_spec(
            state,
            event,
            image_w,
            image_h,
        ).0.spec_selection().is_some(),
        handle_spec(state, event, image_w, image_h).1.quit <==> event == Event::Escape,
{
}

/// A move changes nothing but the free corner of a drag: what a later
/// release commits does not depend on the repaint regions handed out on
/// the way.
pub proof fn lemma_move_keeps_start(state: SelectionState, p: Point)
    ensures
        match state {
            SelectionState::Dragging { start, current } => pointer_move_spec(state, p).0
                == SelectionState::Dragging { start, current: p },
            _ => pointer_move_spec(state, p).0 == state,
        },
{
}

} // verus!
