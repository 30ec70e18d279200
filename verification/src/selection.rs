//! A selection tracker for hosts that poll the mouse once per frame and
//! paint into a frame buffer of `0x00RRGGBB` pixels.

use vstd::prelude::*;
use crate::geometry::{
    clamp_coord,
    clamp_spec,
    clamp_to_bounds,
    normalize,
    normalize_spec,
    Point,
    Rect,
};
use crate::overlay::BORDER_COLOR;
use crate::selection_logic::{
    large_enough,
    pointer_down_spec,
    pointer_move_spec,
    pointer_up_spec,
    SelectionState,
};

verus! {

/// The selection as a polling host keeps it.
///
/// `start` and `end` are the fixed and the free corner of a drag; `made`
/// is the finished selection.
#[derive(Clone, Copy, Debug, PartialEq, Eq)]
pub struct Selection {
    pub start: Option<Point>,
    pub end: Option<Point>,
    pub made: Option<Rect>,
}

impl View for Selection {
    type V = SelectionState;

    /// A finished selection counts before a drag; a drag needs both of
    /// its corners.
    open spec fn view(&self) -> SelectionState {
        match (self.made, self.start, self.end) {
            (Some(rect), _, _) => SelectionState::Committed { rect },
            (None, Some(start), Some(current)) => SelectionState::Dragging { start, current },
            _ => SelectionState::Idle,
        }
    }
}

/// What one poll of the mouse does to the selection: whether the primary
/// button is `down`, and where the pointer is, if it is over the window.
///
/// While the button is held, a finished selection is dropped, and the
/// pointer starts a drag or moves the one under way. Once the button is
/// up, a drag ends where the pointer was last seen.
pub open spec fn poll_spec(
    state: SelectionState,
    down: bool,
    pos: Option<Point>,
    image_w: u32,
    image_h: u32,
) -> SelectionState {
    if down {
        let cleared = match state {
            SelectionState::Committed { rect } => SelectionState::Idle,
            _ => state,
        };
        match pos {
            Some(p) => match cleared {
                SelectionState::Dragging { start, current } => pointer_move_spec(cleared, p).0,
                _ => pointer_down_spec(cleared, p).0,
            },
            None => cleared,
        }
    } else {
        match state {
            SelectionState::Dragging { start, current } => pointer_up_spec(
                state,
                current,
                image_w,
                image_h,
            ).0,
            _ => state,
        }
    }
}

/// The red channel of a pixel.
pub open spec fn red(pixel: u32) -> u32 {
    (pixel >> 16) & 0xFF
}

/// The green channel of a pixel.
pub open spec fn green(pixel: u32) -> u32 {
    (pixel >> 8) & 0xFF
}

/// The blue channel of a pixel.
pub open spec fn blue(pixel: u32) -> u32 {
    pixel & 0xFF
}

/// The pixel with the given channels.
pub open spec fn pack(r: u32, g: u32, b: u32) -> u32 {
    (r << 16) | (g << 8) | b
}

/// A channel at twice its brightness, as far as a byte goes.
pub open spec fn doubled(channel: u32) -> u32 {
    if channel >= 128 { 255 } else { (channel * 2) as u32 }
}

/// The pixel at half its brightness: each channel halved, rounding down.
pub open spec fn dim_spec(pixel: u32) -> u32 {
    pack(red(pixel) / 2, green(pixel) / 2, blue(pixel) / 2)
}

/// The pixel at twice its brightness: each channel doubled, up to 255.
pub open spec fn brighten_spec(pixel: u32) -> u32 {
    pack(doubled(red(pixel)), doubled(green(pixel)), doubled(blue(pixel)))
}

/// The rectangle with each extent raised to one unit where it is none.
pub open spec fn at_least_one(rect: Rect) -> Rect {
    Rect {
        x: rect.x,
        y: rect.y,
        w: if rect.w == 0 { 1 } else { rect.w },
        h: if rect.h == 0 { 1 } else { rect.h },
    }
}

/// The part of the frame that a lit rectangle lights up again: the
/// positions of the rectangle that lie inside the frame.
pub open spec fn highlighted(shown: Rect, width: int, height: int, x: int, y: int) -> bool {
    &&& clamp_coord(shown.left(), width) <= x < clamp_coord(shown.right(), width)
    &&& clamp_coord(shown.top(), height) <= y < clamp_coord(shown.bottom(), height)
}

/// Whether any outline is drawn for a lit rectangle: it must begin
/// before the frame's far edges and end at or after its near edges.
pub open spec fn outline_visible(shown: Rect, width: int, height: int) -> bool {
    &&& shown.left() < width
    &&& shown.top() < height
    &&& shown.right() >= 0
    &&& shown.bottom() >= 0
}

/// The column of the outline's near side.
pub open spec fn outline_left(shown: Rect, width: int) -> int {
    clamp_coord(shown.left(), width)
}

/// The column of the outline's far side: the first column past the
/// rectangle, or the frame's last column if that is nearer.
pub open spec fn outline_right(shown: Rect, width: int) -> int {
    clamp_coord(shown.right(), width - 1)
}

/// The row of the outline's near side.
pub open spec fn outline_top(shown: Rect, height: int) -> int {
    clamp_coord(shown.top(), height)
}

/// The row of the outline's far side.
pub open spec fn outline_bottom(shown: Rect, height: int) -> int {
    clamp_coord(shown.bottom(), height - 1)
}

/// Whether the outline of a lit rectangle runs through `(x, y)`.
pub open spec fn on_outline(shown: Rect, width: int, height: int, x: int, y: int) -> bool {
    let left = outline_left(shown, width);
    let right = outline_right(shown, width);
    let top = outline_top(shown, height);
    let bottom = outline_bottom(shown, height);
    &&& outline_visible(shown, width, height)
    &&& left <= x <= right
    &&& top <= y <= bottom
    &&& (x == left || x == right || y == top || y == bottom)
}

/// The pixel that the overlay puts at `(x, y)` in place of `pixel`:
/// white on the outline, the pixel itself less its lowest bits inside the
/// lit rectangle, the pixel at half brightness elsewhere.
pub open spec fn overlay_pixel(
    pixel: u32,
    shown: Option<Rect>,
    width: int,
    height: int,
    x: int,
    y: int,
) -> u32 {
    match shown {
        Some(rect) => if on_outline(rect, width, height, x, y) {
            BORDER_COLOR
        } else if highlighted(rect, width, height, x, y) {
            brighten_spec(dim_spec(pixel))
        } else {
            dim_spec(pixel)
        },
        None => dim_spec(pixel),
    }
}

/// The pixel in column `x`, row `y`, of a frame `width` pixels wide.
pub open spec fn pixel_at(buffer: Seq<u32>, width: int, x: int, y: int) -> u32 {
    buffer[y * width + x]
}

/// Halves the brightness of a pixel.
#[verifier::when_used_as_spec(dim_spec)]
pub fn dim(pixel: u32) -> (dimmed: u32)
    ensures
        dimmed == dim_spec(pixel),
{
    let r: u32 = (pixel >> 16) & 0xFF;
    let g: u32 = (pixel >> 8) & 0xFF;
    let b: u32 = pixel & 0xFF;
    ((r / 2) << 16) | ((g / 2) << 8) | (b / 2)
}

/// Doubles one channel, stopping at 255.
fn double_channel(channel: u32) -> (twice: u32)
    ensures
        twice == doubled(channel),
{
    if channel >= 128 {
        255
    } else {
        channel * 2
    }
}

/// Doubles the brightness of a pixel, each channel stopping at 255.
#[verifier::when_used_as_spec(brighten_spec)]
pub fn brighten(pixel: u32) -> (lit: u32)
    ensures
        lit == brighten_spec(pixel),
{
    let r: u32 = double_channel((pixel >> 16) & 0xFF);
    let g: u32 = double_channel((pixel >> 8) & 0xFF);
    let b: u32 = double_channel(pixel & 0xFF);
    (r << 16) | (g << 8) | b
}

/// One coordinate of a rectangle moved into `[0, limit]`.
fn clamp_index(v: i128, limit: usize) -> (index: usize)
    ensures
        index == clamp_coord(v as int, limit as int),
{
    if v < 0 {
        0
    } else if v > limit as i128 {
        limit
    } else {
        v as usize
    }
}

impl Selection {
    /// No drag, no selection.
    pub fn new() -> (selection: Selection)
        ensures
            selection.start.is_none(),
            selection.end.is_none(),
            selection.made.is_none(),
            selection@ == SelectionState::Idle,
    {
        Selection { start: None, end: None, made: None }
    }

    /// The rectangle that the overlay shows: the finished selection, else
    /// the candidate of the drag under way.
    pub fn shown_rect(&self) -> (shown: Option<Rect>)
        ensures
            shown == self@.spec_shown_rect(),
    {
        match (self.made, self.start, self.end) {
            (Some(rect), _, _) => Some(rect),
            (None, Some(start), Some(current)) => Some(normalize(start, current)),
            _ => None,
        }
    }

    /// The rectangle that `draw_overlay` lights up: the finished selection
    /// as it is, else the candidate of the drag under way, made one unit
    /// wide or high where it has no extent, so that a press without
    /// movement shows already.
    pub open spec fn spec_lit_rect(&self) -> Option<Rect> {
        match (self.made, self.start, self.end) {
            (Some(rect), _, _) => Some(rect),
            (None, Some(start), Some(current)) => Some(at_least_one(normalize_spec(start, current))),
            _ => None,
        }
    }

    #[verifier::when_used_as_spec(spec_lit_rect)]
    pub fn lit_rect(&self) -> (lit: Option<Rect>)
        ensures
            lit == self.spec_lit_rect(),
            lit.is_some() == self@.spec_shown_rect().is_some(),
    {
        match (self.made, self.start, self.end) {
            (Some(rect), _, _) => Some(rect),
            (None, Some(start), Some(current)) => {
                let spanned: Rect = normalize(start, current);
                Some(
                    Rect {
                        x: spanned.x,
                        y: spanned.y,
                        w: if spanned.w == 0 { 1 } else { spanned.w },
                        h: if spanned.h == 0 { 1 } else { spanned.h },
                    },
                )
            },
            _ => None,
        }
    }

    /// Both corners are set, or neither is. Every selection that comes of
    /// `new` and `update` is of this kind.
    pub open spec fn corners_paired(&self) -> bool {
        self.start.is_some() == self.end.is_some()
    }

    /// The selection after one poll of the mouse, field by field.
    ///
    /// While the button is held: a finished selection is dropped with both
    /// corners, and a pointer over the window sets the free corner, and
    /// the fixed one too if it is not set. Once the button is up: a drag
    /// becomes the finished selection, clipped to the image, if it is
    /// large enough; else both corners are dropped.
    pub open spec fn spec_update(
        self,
        down: bool,
        pos: Option<Point>,
        image_w: u32,
        image_h: u32,
    ) -> Selection {
        if down {
            let cleared = if self.made.is_some() {
                Selection { start: None, end: None, made: None }
            } else {
                self
            };
            match pos {
                Some(p) => Selection {
                    start: if cleared.start.is_none() {
                        Some(p)
                    } else {
                        cleared.start
                    },
                    end: Some(p),
                    made: None,
                },
                None => cleared,
            }
        } else {
            match (self.made, self.start, self.end) {
                (None, Some(start), Some(current)) => if large_enough(
                    normalize_spec(start, current),
                ) {
                    Selection {
                        start: self.start,
                        end: self.end,
                        made: Some(clamp_spec(normalize_spec(start, current), image_w, image_h)),
                    }
                } else {
                    Selection { start: None, end: None, made: None }
                },
                _ => self,
            }
        }
    }

    /// Takes one poll of the mouse: whether the primary button is `down`,
    /// and where the pointer is, in an image `image_w` by `image_h`.
    pub fn update(&mut self, down: bool, pos: Option<Point>, image_w: u32, image_h: u32)
        ensures
            *final(self) == old(self).spec_update(down, pos, image_w, image_h),
            old(self).corners_paired() ==> final(self).corners_paired() && final(self)@
                == poll_spec(old(self)@, down, pos, image_w, image_h),
    {
        if down {
            if self.made.is_some() {
                self.start = None;
                self.end = None;
                self.made = None;
            }
            if let Some(p) = pos {
                if self.start.is_none() {
                    self.start = Some(p);
                }
                self.end = Some(p);
            }
        } else if self.made.is_none() {
            if let (Some(start), Some(current)) = (self.start, self.end) {
                let released: Rect = normalize(start, current);
                if released.w > 1 && released.h > 1 {
                    self.made = Some(clamp_to_bounds(released, image_w, image_h));
                } else {
                    self.start = None;
                    self.end = None;
                }
            }
        }
    }

    /// Paints the overlay into a frame buffer: every pixel at half
    /// brightness and, in the frame of `width` by `height` pixels at the
    /// buffer's start, the rectangle of `lit_rect` lit up again with a
    /// white outline around it.
    ///
    /// With a rectangle to show, the buffer has to hold the frame; what it
    /// holds beyond the frame is dimmed like the rest.
    pub fn draw_overlay(&self, buffer: &mut [u32], width: usize, height: usize)
        requires
            self.spec_lit_rect().is_some() ==> width * height <= old(buffer)@.len(),
        ensures
            final(buffer)@.len() == old(buffer)@.len(),
            width * height <= old(buffer)@.len() ==> forall|x: int, y: int|
                0 <= x < width && 0 <= y < height ==> #[trigger] pixel_at(
                    final(buffer)@,
                    width as int,
                    x,
                    y,
                ) == overlay_pixel(
                    pixel_at(old(buffer)@, width as int, x, y),
                    self.spec_lit_rect(),
                    width as int,
                    height as int,
                    x,
                    y,
                ),
            forall|i: int|
                width * height <= i < old(buffer)@.len() ==> final(buffer)@[i] == dim_spec(
                    old(buffer)@[i],
                ),
            self.spec_lit_rect().is_none() ==> forall|i: int|
                0 <= i < old(buffer)@.len() ==> final(buffer)@[i] == dim_spec(old(buffer)@[i]),
    {
        let ghost before: Seq<u32> = buffer@;
        let total: usize = buffer.len();
        match self.lit_rect() {
            Some(rect) => {
                if width == 0 || height == 0 {
                    assert(width * height == 0) by (nonlinear_arith)
                        requires
                            width == 0 || height == 0,
                    ;
                    dim_from(buffer, 0);
                } else {
                    let frame_len: usize = width * height;
                    paint_frame(buffer, rect, width, height);
                    let ghost framed: Seq<u32> = buffer@;
                    dim_from(buffer, frame_len);
                    proof {
                        assert forall|x: int, y: int|
                            0 <= x < width && 0 <= y < height implies #[trigger] pixel_at(
                            buffer@,
                            width as int,
                            x,
                            y,
                        ) == pixel_at(framed, width as int, x, y) by {
                            lemma_index_in_frame(width as int, height as int, x, y);
                        }
                    }
                }
            },
            None => {
                dim_from(buffer, 0);
                proof {
                    if width * height <= total {
                        assert forall|x: int, y: int|
                            0 <= x < width && 0 <= y < height implies #[trigger] pixel_at(
                            buffer@,
                            width as int,
                            x,
                            y,
                        ) == dim_spec(pixel_at(before, width as int, x, y)) by {
                            lemma_index_in_frame(width as int, height as int, x, y);
                        }
                    }
                }
            },
        }
    }
}

/// A position inside a frame has its index inside the frame's pixels.
proof fn lemma_index_in_frame(width: int, height: int, x: int, y: int)
    requires
        0 <= x < width,
        0 <= y < height,
    ensures
        0 <= y * width + x < width * height,
{
    assert(y * width + width <= height * width) by (nonlinear_arith)
        requires
            y + 1 <= height,
            width >= 0,
    ;
    assert(height * width == width * height) by (nonlinear_arith);
    assert(0 <= y * width) by (nonlinear_arith)
        requires
            0 <= y,
            0 <= width,
    ;
}

/// Dims the pixels from index `from` on and leaves those before it.
fn dim_from(buffer: &mut [u32], from: usize)
    requires
        from <= old(buffer)@.len(),
    ensures
        final(buffer)@.len() == old(buffer)@.len(),
        forall|i: int| 0 <= i < from ==> final(buffer)@[i] == old(buffer)@[i],
        forall|i: int|
            from <= i < old(buffer)@.len() ==> final(buffer)@[i] == dim_spec(old(buffer)@[i]),
{
    let ghost before: Seq<u32> = buffer@;
    let total: usize = buffer.len();
    let mut i: usize = from;
    while i < total
        invariant
            buffer@.len() == total,
            before.len() == total,
            from <= i <= total,
            forall|n: int| 0 <= n < from ==> buffer@[n] == before[n],
            forall|n: int| from <= n < i ==> buffer@[n] == dim_spec(before[n]),
            forall|n: int| i <= n < total ==> buffer@[n] == before[n],
        decreases total - i,
    {
        let pixel: u32 = buffer[i];
        buffer[i] = dim(pixel);
        i = i + 1;
    }
}

/// Paints the frame at the start of the buffer for a lit rectangle and
/// leaves what follows the frame.
fn paint_frame(buffer: &mut [u32], rect: Rect, width: usize, height: usize)
    requires
        width >= 1,
        height >= 1,
        width * height <= old(buffer)@.len(),
    ensures
        final(buffer)@.len() == old(buffer)@.len(),
        forall|i: int|
            width * height <= i < old(buffer)@.len() ==> final(buffer)@[i] == old(buffer)@[i],
        forall|x: int, y: int|
            0 <= x < width && 0 <= y < height ==> #[trigger] pixel_at(
                final(buffer)@,
                width as int,
                x,
                y,
            ) == overlay_pixel(
                pixel_at(old(buffer)@, width as int, x, y),
                Some(rect),
                width as int,
                height as int,
                x,
                y,
            ),
{
    let ghost before: Seq<u32> = buffer@;
    let ghost w: int = width as int;
    let ghost h: int = height as int;
    let total: usize = buffer.len();
    let shown: Option<Rect> = Some(rect);
    let left: i128 = rect.x as i128;
    let top: i128 = rect.y as i128;
    let right: i128 = left + rect.w as i128;
    let bottom: i128 = top + rect.h as i128;
    let frame_right: i128 = width as i128;
    let frame_bottom: i128 = height as i128;
    let lit_left: usize = clamp_index(left, width);
    let lit_right: usize = clamp_index(right, width);
    let lit_top: usize = clamp_index(top, height);
    let lit_bottom: usize = clamp_index(bottom, height);
    let visible: bool = left < frame_right && top < frame_bottom && right >= 0 && bottom >= 0;
    let line_right: usize = clamp_index(right, width - 1);
    let line_bottom: usize = clamp_index(bottom, height - 1);
    let mut y: usize = 0;
    while y < height
        invariant
            buffer@.len() == total,
            before.len() == total,
            w * h <= total,
            w == width && h == height,
            w >= 1 && h >= 1,
            0 <= y <= height,
            shown == Some(rect),
            lit_left == clamp_coord(rect.left(), w),
            lit_right == clamp_coord(rect.right(), w),
            lit_top == clamp_coord(rect.top(), h),
            lit_bottom == clamp_coord(rect.bottom(), h),
            visible == outline_visible(rect, w, h),
            line_right == outline_right(rect, w),
            line_bottom == outline_bottom(rect, h),
            forall|n: int| y * w <= n < total ==> buffer@[n] == before[n],
            forall|px: int, py: int|
                0 <= px < w && 0 <= py < y ==> #[trigger] pixel_at(buffer@, w, px, py)
                    == overlay_pixel(pixel_at(before, w, px, py), shown, w, h, px, py),
        decreases height - y,
    {
        proof {
            assert(y * w + w <= h * w) by (nonlinear_arith)
                requires
                    y + 1 <= h,
                    w >= 0,
            ;
            assert(h * w == w * h) by (nonlinear_arith);
        }
        let base: usize = y * width;
        let ghost row_start: Seq<u32> = buffer@;
        let mut x: usize = 0;
        while x < width
            invariant
                buffer@.len() == total,
                before.len() == total,
                row_start.len() == total,
                w == width && h == height,
                0 <= y < height,
                0 <= x <= width,
                base == y * w,
                base + w <= total,
                shown == Some(rect),
                lit_left == clamp_coord(rect.left(), w),
                lit_right == clamp_coord(rect.right(), w),
                lit_top == clamp_coord(rect.top(), h),
                lit_bottom == clamp_coord(rect.bottom(), h),
                visible == outline_visible(rect, w, h),
                line_right == outline_right(rect, w),
                line_bottom == outline_bottom(rect, h),
                forall|n: int| 0 <= n < base ==> buffer@[n] == row_start[n],
                forall|n: int| base + x <= n < total ==> buffer@[n] == before[n],
                forall|px: int|
                    0 <= px < x ==> #[trigger] buffer@[base + px] == overlay_pixel(
                        before[base + px],
                        shown,
                        w,
                        h,
                        px,
                        y as int,
                    ),
            decreases width - x,
        {
            let index: usize = base + x;
            let pixel: u32 = buffer[index];
            let on_line: bool = visible && lit_left <= x && x <= line_right && lit_top <= y && y
                <= line_bottom && (x == lit_left || x == line_right || y == lit_top || y
                == line_bottom);
            let painted: u32 = if on_line {
                BORDER_COLOR
            } else if lit_left <= x && x < lit_right && lit_top <= y && y < lit_bottom {
                brighten(dim(pixel))
            } else {
                dim(pixel)
            };
            buffer[index] = painted;
            x = x + 1;
        }
        proof {
            assert((y + 1) * w == y * w + w) by (nonlinear_arith);
            assert forall|px: int, py: int| 0 <= px < w && 0 <= py < y + 1 implies #[trigger] pixel_at(
                buffer@,
                w,
                px,
                py,
            ) == overlay_pixel(pixel_at(before, w, px, py), shown, w, h, px, py) by {
                if py < y {
                    assert(py * w + w <= y * w) by (nonlinear_arith)
                        requires
                            py + 1 <= y,
                            w >= 0,
                    ;
                    assert(pixel_at(row_start, w, px, py) == overlay_pixel(
                        pixel_at(before, w, px, py),
                        shown,
                        w,
                        h,
                        px,
                        py,
                    ));
                } else {
                    assert(buffer@[base + px] == overlay_pixel(
                        before[base + px],
                        shown,
                        w,
                        h,
                        px,
                        y as int,
                    ));
                }
            }
        }
        y = y + 1;
    }
    proof {
        assert(h * w == w * h) by (nonlinear_arith);
    }
}

/// A poll of the mouse is a step of the drag state machine. For a
/// selection whose corners are both set or both unset, the corners stay
/// so, and, seen as a state, the selection after the poll is what
/// `poll_spec` makes of the state before it.
pub proof fn lemma_update_follows_state_machine(
    selection: Selection,
    down: bool,
    pos: Option<Point>,
    image_w: u32,
    image_h: u32,
)
    requires
        selection.corners_paired(),
    ensures
        selection.spec_update(down, pos, image_w, image_h).corners_paired(),
        selection.spec_update(down, pos, image_w, image_h)@ == poll_spec(
            selection@,
            down,
            pos,
            image_w,
            image_h,
        ),
{
}

/// Each channel of a pixel fits in a byte, and packing three bytes gives
/// a pixel with just those channels.
pub proof fn lemma_channels_of_pack(r: u32, g: u32, b: u32)
    requires
        r <= 255,
        g <= 255,
        b <= 255,
    ensures
        red(pack(r, g, b)) == r,
        green(pack(r, g, b)) == g,
        blue(pack(r, g, b)) == b,
        pack(r, g, b) <= 0xFF_FFFF,
{
    assert(((((r << 16) | (g << 8) | b) >> 16) & 0xFF) == r) by (bit_vector)
        requires
            r <= 255,
            g <= 255,
            b <= 255,
    ;
    assert(((((r << 16) | (g << 8) | b) >> 8) & 0xFF) == g) by (bit_vector)
        requires
            r <= 255,
            g <= 255,
            b <= 255,
    ;
    assert((((r << 16) | (g << 8) | b) & 0xFF) == b) by (bit_vector)
        requires
            r <= 255,
            g <= 255,
            b <= 255,
    ;
    assert(((r << 16) | (g << 8) | b) <= 0xFF_FFFF) by (bit_vector)
        requires
            r <= 255,
            g <= 255,
            b <= 255,
    ;
}

/// Dimming halves each channel, rounding down.
pub proof fn lemma_dim_halves(pixel: u32)
    ensures
        red(dim_spec(pixel)) == red(pixel) / 2,
        green(dim_spec(pixel)) == green(pixel) / 2,
        blue(dim_spec(pixel)) == blue(pixel) / 2,
{
    assert(((pixel >> 16) & 0xFF) <= 255) by (bit_vector);
    assert(((pixel >> 8) & 0xFF) <= 255) by (bit_vector);
    assert((pixel & 0xFF) <= 255) by (bit_vector);
    lemma_channels_of_pack(red(pixel) / 2, green(pixel) / 2, blue(pixel) / 2);
}

/// Lighting a dimmed pixel up again gives back each channel less its
/// lowest bit.
pub proof fn lemma_brighten_dim(pixel: u32)
    ensures
        red(brighten_spec(dim_spec(pixel))) == red(pixel) - red(pixel) % 2,
        green(brighten_spec(dim_spec(pixel))) == green(pixel) - green(pixel) % 2,
        blue(brighten_spec(dim_spec(pixel))) == blue(pixel) - blue(pixel) % 2,
{
    assert(((pixel >> 16) & 0xFF) <= 255) by (bit_vector);
    assert(((pixel >> 8) & 0xFF) <= 255) by (bit_vector);
    assert((pixel & 0xFF) <= 255) by (bit_vector);
    lemma_dim_halves(pixel);
    let dimmed = dim_spec(pixel);
    lemma_channels_of_pack(doubled(red(dimmed)), doubled(green(dimmed)), doubled(blue(dimmed)));
}

} // verus!
