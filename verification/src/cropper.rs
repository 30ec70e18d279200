//! Cutting the selected pixels out of the captured frame.

use vstd::prelude::*;
use crate::geometry::{clamp_spec, clamp_to_bounds, Rect};
use crate::selection_logic::SelectionState;

verus! {

/// Bytes per pixel: red, green, blue, alpha.
pub const CHANNELS: usize = 4;

/// The number of bytes that an image `width` by `height` takes.
pub open spec fn rgba_len(width: u32, height: u32) -> int {
    width * height * 4
}

/// The captured frame: `width` by `height` pixels, row by row from the
/// top, four bytes each.
#[derive(Clone, Debug)]
pub struct SourceImage {
    pub width: u32,
    pub height: u32,
    pub pixels: Vec<u8>,
}

/// Pixels cut out of a frame, in the same layout as the frame's.
#[derive(Clone, Debug)]
pub struct CroppedImage {
    pub width: u32,
    pub height: u32,
    pub pixels: Vec<u8>,
}

/// The byte of channel `c` of the pixel in column `x`, row `y`, of an
/// image `width` pixels wide.
pub open spec fn channel_of(pixels: Seq<u8>, width: int, x: int, y: int, c: int) -> u8 {
    pixels[(y * width + x) * 4 + c]
}

impl SourceImage {
    /// The buffer holds exactly the pixels that the size calls for.
    pub open spec fn well_formed(&self) -> bool {
        self.pixels@.len() == rgba_len(self.width, self.height)
    }

    pub open spec fn channel(&self, x: int, y: int, c: int) -> u8 {
        channel_of(self.pixels@, self.width as int, x, y, c)
    }

    /// Wraps a buffer of `width * height` pixels; `None` if the buffer
    /// has any other length.
    pub fn new(width: u32, height: u32, pixels: Vec<u8>) -> (image: Option<SourceImage>)
        ensures
            image.is_some() <==> pixels@.len() == rgba_len(width, height),
            image matches Some(made) ==> made.width == width && made.height == height
                && made.pixels@ == pixels@ && made.well_formed(),
    {
        if fits(width, height, pixels.len()) {
            Some(SourceImage { width, height, pixels })
        } else {
            None
        }
    }

    /// Whether the buffer holds exactly the pixels that the size calls for.
    pub fn is_well_formed(&self) -> (ok: bool)
        ensures
            ok == self.well_formed(),
    {
        fits(self.width, self.height, self.pixels.len())
    }

    /// The frame's bounds as a rectangle.
    pub fn bounds(&self) -> (frame: Rect)
        ensures
            frame == Rect::of_size(self.width, self.height),
    {
        Rect::of_size(self.width, self.height)
    }
}

impl CroppedImage {
    /// The buffer holds exactly the pixels that the size calls for.
    pub open spec fn well_formed(&self) -> bool {
        self.pixels@.len() == rgba_len(self.width, self.height)
    }

    pub open spec fn channel(&self, x: int, y: int, c: int) -> u8 {
        channel_of(self.pixels@, self.width as int, x, y, c)
    }

    /// Whether the buffer holds exactly the pixels that the size calls for.
    pub fn is_well_formed(&self) -> (ok: bool)
        ensures
            ok == self.well_formed(),
    {
        fits(self.width, self.height, self.pixels.len())
    }

    pub open spec fn spec_is_empty(&self) -> bool {
        self.width == 0 || self.height == 0
    }

    /// Whether the image holds no pixel.
    #[verifier::when_used_as_spec(spec_is_empty)]
    pub fn is_empty(&self) -> (empty: bool)
        ensures
            empty == self.spec_is_empty(),
    {
        self.width == 0 || self.height == 0
    }
}

/// Whether `len` bytes are exactly an image `width` by `height`.
fn fits(width: u32, height: u32, len: usize) -> (exact: bool)
    ensures
        exact == (len == rgba_len(width, height)),
{
    assert(width * height <= 0xFFFF_FFFF * 0xFFFF_FFFF) by (nonlinear_arith)
        requires
            width <= 0xFFFF_FFFF,
            height <= 0xFFFF_FFFF,
    ;
    let wanted: u128 = width as u128 * height as u128 * 4;
    len as u128 == wanted
}

/// What `crop` returns for `source` and `rect`: the pixels of `source`
/// inside `rect` clipped to the frame, pixel `(i, j)` of the result being
/// pixel `(x + i, y + j)` of the frame.
pub open spec fn is_crop_of(cut: CroppedImage, source: SourceImage, rect: Rect) -> bool {
    let region = clamp_spec(rect, source.width, source.height);
    &&& cut.well_formed()
    &&& cut.width == region.w
    &&& cut.height == region.h
    &&& forall|i: int, j: int, c: int|
        0 <= i < region.w && 0 <= j < region.h && 0 <= c < 4 ==> #[trigger] cut.channel(i, j, c)
            == source.channel(region.x + i, region.y + j, c)
}

/// Byte `k` of row `row` in a buffer whose rows are `row_len` bytes long,
/// the rows starting at byte `base`.
spec fn row_byte(bytes: Seq<u8>, base: int, row_len: int, row: int, k: int) -> u8 {
    bytes[base + row * row_len + k]
}

/// Cuts the pixels inside `rect` out of `source`.
///
/// The rectangle is clipped to the frame first; one without area inside
/// the frame gives an image without pixels.
pub fn crop(source: &SourceImage, rect: Rect) -> (cut: CroppedImage)
    requires
        source.well_formed(),
    ensures
        is_crop_of(cut, *source, rect),
{
    let region: Rect = clamp_to_bounds(rect, source.width, source.height);
    let cut_w: u32 = region.w as u32;
    let cut_h: u32 = region.h as u32;
    if cut_w == 0 || cut_h == 0 {
        assert(region.w * region.h * 4 == 0) by (nonlinear_arith)
            requires
                region.w == 0 || region.h == 0,
        ;
        return CroppedImage { width: cut_w, height: cut_h, pixels: Vec::new() };
    }
    let total_len: usize = source.pixels.len();
    let ghost frame_w: int = source.width as int;
    let ghost frame_h: int = source.height as int;
    let ghost total: int = total_len as int;
    let ghost rw: int = region.w as int;
    let ghost rh: int = region.h as int;
    let ghost rx: int = region.x as int;
    let ghost ry: int = region.y as int;
    proof {
        assert(total == frame_w * frame_h * 4);
        assert(frame_w * 4 <= frame_w * frame_h * 4) by (nonlinear_arith)
            requires
                frame_h >= 1,
                frame_w >= 0,
        ;
    }
    let stride: usize = source.width as usize * 4;
    let row_len: usize = cut_w as usize * 4;
    let first: usize = region.x as usize * 4;
    let mut pixels: Vec<u8> = Vec::new();
    let mut j: usize = 0;
    while j < cut_h as usize
        invariant
            source.well_formed(),
            total == source.pixels@.len(),
            total <= usize::MAX,
            total == frame_w * frame_h * 4,
            frame_w == source.width,
            frame_h == source.height,
            rw == cut_w && rh == cut_h && rx == region.x && ry == region.y,
            0 <= rx && rx + rw <= frame_w,
            0 <= ry && ry + rh <= frame_h,
            rw >= 1 && rh >= 1,
            stride == frame_w * 4,
            row_len == rw * 4,
            first == rx * 4,
            0 <= j <= rh,
            pixels@.len() == j * row_len,
            forall|row: int, k: int|
                0 <= row < j && 0 <= k < row_len ==> #[trigger] row_byte(
                    pixels@,
                    0,
                    row_len as int,
                    row,
                    k,
                ) == row_byte(source.pixels@, ry * stride + first, stride as int, row, k),
        decreases rh - j,
    {
        proof {
            assert((ry + j) * stride + stride <= frame_h * stride) by (nonlinear_arith)
                requires
                    ry + j + 1 <= frame_h,
                    stride >= 0,
            ;
            assert(frame_h * stride == total) by (nonlinear_arith)
                requires
                    stride == frame_w * 4,
                    total == frame_w * frame_h * 4,
            ;
            assert(j * row_len + row_len <= rh * row_len) by (nonlinear_arith)
                requires
                    j + 1 <= rh,
                    row_len >= 0,
            ;
            assert(rh * row_len <= total) by (nonlinear_arith)
                requires
                    rh <= frame_h,
                    row_len <= stride,
                    rh >= 0,
                    row_len >= 0,
                    frame_h * stride == total,
            ;
        }
        let start: usize = (region.y as usize + j) * stride + first;
        let ghost before: Seq<u8> = pixels@;
        let mut k: usize = 0;
        while k < row_len
            invariant
                total == source.pixels@.len(),
                total <= usize::MAX,
                0 <= k <= row_len,
                start + row_len <= total,
                start == (ry + j) * stride + first,
                pixels@.len() == j * row_len + k,
                j * row_len + row_len <= total,
                before.len() == j * row_len,
                forall|n: int| 0 <= n < before.len() ==> pixels@[n] == before[n],
                forall|m: int|
                    0 <= m < k ==> #[trigger] pixels@[j * row_len + m] == source.pixels@[start + m],
            decreases row_len - k,
        {
            pixels.push(source.pixels[start + k]);
            k = k + 1;
        }
        proof {
            assert((j + 1) * row_len == j * row_len + row_len) by (nonlinear_arith);
            assert forall|row: int, m: int| 0 <= row < j + 1 && 0 <= m < row_len implies #[trigger] row_byte(
                pixels@,
                0,
                row_len as int,
                row,
                m,
            ) == row_byte(source.pixels@, ry * stride + first, stride as int, row, m) by {
                if row < j {
                    assert(row * row_len + row_len <= j * row_len) by (nonlinear_arith)
                        requires
                            row + 1 <= j,
                            row_len >= 0,
                    ;
                    assert(row_byte(before, 0, row_len as int, row, m) == row_byte(
                        source.pixels@,
                        ry * stride + first,
                        stride as int,
                        row,
                        m,
                    ));
                } else {
                    assert(pixels@[j * row_len + m] == source.pixels@[start + m]);
                    assert((ry + j) * stride == ry * stride + j * stride) by (nonlinear_arith);
                }
            }
        }
        j = j + 1;
    }
    let cut = CroppedImage { width: cut_w, height: cut_h, pixels };
    proof {
        assert(rh * row_len == rw * rh * 4) by (nonlinear_arith)
            requires
                row_len == rw * 4,
        ;
        assert forall|i: int, jj: int, c: int|
            0 <= i < region.w && 0 <= jj < region.h && 0 <= c < 4 implies #[trigger] cut.channel(
            i,
            jj,
            c,
        ) == source.channel(region.x + i, region.y + jj, c) by {
            let m = i * 4 + c;
            assert(row_byte(cut.pixels@, 0, row_len as int, jj, m) == row_byte(
                source.pixels@,
                ry * stride + first,
                stride as int,
                jj,
                m,
            ));
            assert((jj * rw + i) * 4 + c == jj * row_len + m) by (nonlinear_arith)
                requires
                    row_len == rw * 4,
                    m == i * 4 + c,
            ;
            assert(((ry + jj) * frame_w + (rx + i)) * 4 + c == ry * stride + first + jj * stride
                + m) by (nonlinear_arith)
                requires
                    stride == frame_w * 4,
                    first == rx * 4,
                    m == i * 4 + c,
            ;
        }
    }
    cut
}

impl SelectionState {
    /// The pixels of the committed selection, if there is one.
    pub fn crop_image(&self, source: &SourceImage) -> (cut: Option<CroppedImage>)
        requires
            source.well_formed(),
        ensures
            cut.is_some() <==> self.spec_selection().is_some(),
            cut matches Some(image) ==> is_crop_of(image, *source, self.spec_selection().unwrap()),
    {
        match self.selection() {
            Some(rect) => Some(crop(source, rect)),
            None => None,
        }
    }
}

} // verus!
