use qrcode::{Color, QrCode};
use region_select::cropper::{crop, CroppedImage, SourceImage};
use region_select::geometry::Rect;
use region_select::qrcode::first_decoded;

/// Runs the decoder on an image and keeps what it could read.
fn decode(image: &CroppedImage) -> Vec<Option<String>> {
    let buffer = image::RgbaImage::from_raw(image.width, image.height, image.pixels.clone())
        .unwrap();
    let picture = image::DynamicImage::ImageRgba8(buffer);
    let outcomes = bardecoder::default_decoder().decode(&picture);
    outcomes.into_iter().map(|outcome| outcome.ok()).collect()
}

/// A QR code of `text`, `scale` pixels to the module, with a light margin
/// of four modules, as a frame.
fn code_frame(text: &str, scale: u32) -> SourceImage {
    let code = QrCode::new(text.as_bytes()).unwrap();
    let modules = code.width() as u32;
    let colors = code.to_colors();
    let side = (modules + 8) * scale;
    let mut pixels = Vec::new();
    for y in 0..side {
        for x in 0..side {
            let (mx, my) = (x / scale, y / scale);
            let inside = mx >= 4 && my >= 4 && mx < modules + 4 && my < modules + 4;
            let dark = inside
                && colors[((my - 4) * modules + (mx - 4)) as usize] == Color::Dark;
            let level = if dark { 0 } else { 255 };
            pixels.push(level);
            pixels.push(level);
            pixels.push(level);
            pixels.push(255);
        }
    }
    SourceImage::new(side, side, pixels).unwrap()
}

/// Copies `part` into `frame` with its corner at `(left, top)`.
fn paste(frame: &mut [u8], frame_w: u32, part: &SourceImage, left: u32, top: u32) {
    for y in 0..part.height {
        for x in 0..part.width {
            for c in 0..4 {
                let from = ((y * part.width + x) * 4 + c) as usize;
                let to = (((y + top) * frame_w + x + left) * 4 + c) as usize;
                frame[to] = part.pixels[from];
            }
        }
    }
}

#[test]
fn first_decoded_takes_the_first_text() {
    let found = vec![None, Some(String::from("first")), None, Some(String::from("second"))];
    assert_eq!(first_decoded(&found), Some(String::from("first")));
    assert_eq!(first_decoded(&vec![Some(String::from("only"))]), Some(String::from("only")));
    assert_eq!(first_decoded(&vec![Some(String::new()), None]), Some(String::new()));
}

#[test]
fn first_decoded_of_nothing_readable_is_none() {
    assert_eq!(first_decoded(&Vec::new()), None);
    assert_eq!(first_decoded(&vec![None, None, None]), None);
}

#[test]
fn first_decoded_leaves_the_list_alone() {
    let found = vec![None, Some(String::from("kept"))];
    let copy = found.clone();
    let _ = first_decoded(&found);
    assert_eq!(found, copy);
}

#[test]
fn scan_of_a_blank_selection_finds_nothing() {
    let blank = CroppedImage { width: 120, height: 90, pixels: vec![255; 120 * 90 * 4] };
    assert_eq!(first_decoded(&decode(&blank)), None);
}

#[test]
fn scan_reads_a_code() {
    let frame = code_frame("region select", 8);
    let cut = crop(&frame, frame.bounds());
    assert_eq!(first_decoded(&decode(&cut)), Some(String::from("region select")));
}

#[test]
fn scan_reads_a_code_cut_out_of_a_larger_frame() {
    let code = code_frame("https://example.org/a?b=1", 6);
    let side = code.width;
    let (frame_w, frame_h) = (side + 90, side + 40);
    let mut pixels = vec![255u8; frame_w as usize * frame_h as usize * 4];
    paste(&mut pixels, frame_w, &code, 70, 30);
    let frame = SourceImage::new(frame_w, frame_h, pixels).unwrap();
    let selected = Rect { x: 70, y: 30, w: side as u64, h: side as u64 };
    let cut = crop(&frame, selected);
    assert_eq!(cut.pixels, code.pixels);
    assert_eq!(first_decoded(&decode(&cut)), Some(String::from("https://example.org/a?b=1")));
}

#[test]
fn scan_of_two_codes_takes_the_one_found_first() {
    let upper = code_frame("upper", 6);
    let lower = code_frame("lower", 6);
    let side = upper.width.max(lower.width);
    let (frame_w, frame_h) = (side, 2 * side);
    let mut pixels = vec![255u8; frame_w as usize * frame_h as usize * 4];
    paste(&mut pixels, frame_w, &upper, 0, 0);
    paste(&mut pixels, frame_w, &lower, 0, side);
    let frame = SourceImage::new(frame_w, frame_h, pixels).unwrap();
    let found = decode(&crop(&frame, frame.bounds()));
    let read: Vec<&String> = found.iter().flatten().collect();
    assert_eq!(read.len(), 2);
    assert_eq!(first_decoded(&found).as_ref(), Some(read[0]));
}
