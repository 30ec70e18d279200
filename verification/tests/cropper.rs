use region_select::cropper::{crop, CroppedImage, SourceImage, CHANNELS};
use region_select::geometry::Rect;
use region_select::selection_logic::SelectionState;

fn rect(x: i64, y: i64, w: u64, h: u64) -> Rect {
    Rect { x, y, w, h }
}

/// A frame in which every byte tells its place.
fn numbered(width: u32, height: u32) -> SourceImage {
    let mut pixels = Vec::new();
    for y in 0..height {
        for x in 0..width {
            pixels.push(x as u8);
            pixels.push(y as u8);
            pixels.push((x ^ y) as u8);
            pixels.push(((x + 3 * y) % 251) as u8);
        }
    }
    SourceImage::new(width, height, pixels).unwrap()
}

fn pixel(pixels: &[u8], width: u32, x: u32, y: u32) -> &[u8] {
    let at = (y as usize * width as usize + x as usize) * CHANNELS;
    &pixels[at..at + CHANNELS]
}

#[test]
fn crop_round_trip() {
    let source = numbered(200, 150);
    let cut = crop(&source, rect(20, 20, 50, 40));
    assert_eq!((cut.width, cut.height), (50, 40));
    assert_eq!(cut.pixels.len(), 50 * 40 * 4);
    for j in 0..40 {
        for i in 0..50 {
            assert_eq!(
                pixel(&cut.pixels, 50, i, j),
                pixel(&source.pixels, 200, 20 + i, 20 + j)
            );
        }
    }
}

#[test]
fn crop_of_the_whole_frame_is_the_frame() {
    let source = numbered(17, 9);
    let cut = crop(&source, source.bounds());
    assert_eq!((cut.width, cut.height), (17, 9));
    assert_eq!(cut.pixels, source.pixels);
}

#[test]
fn crop_of_one_pixel() {
    let source = numbered(17, 9);
    let cut = crop(&source, rect(16, 8, 1, 1));
    assert_eq!((cut.width, cut.height), (1, 1));
    assert_eq!(cut.pixels, vec![16, 8, 16 ^ 8, 40]);
}

#[test]
fn crop_without_area_is_empty() {
    let source = numbered(20, 10);
    let cut = crop(&source, rect(5, 5, 0, 3));
    assert_eq!((cut.width, cut.height), (0, 3));
    assert!(cut.pixels.is_empty());
    assert!(cut.is_empty());
    let cut = crop(&source, rect(50, 50, 4, 4));
    assert_eq!((cut.width, cut.height), (0, 0));
    assert!(cut.pixels.is_empty());
}

#[test]
fn crop_clips_to_the_frame() {
    let source = numbered(20, 10);
    let cut = crop(&source, rect(-4, 7, 10, 10));
    assert_eq!((cut.width, cut.height), (6, 3));
    for j in 0..3 {
        for i in 0..6 {
            assert_eq!(pixel(&cut.pixels, 6, i, j), pixel(&source.pixels, 20, i, 7 + j));
        }
    }
}

#[test]
fn crop_of_an_empty_frame() {
    let source = SourceImage::new(0, 0, Vec::new()).unwrap();
    let cut = crop(&source, rect(0, 0, 10, 10));
    assert_eq!((cut.width, cut.height), (0, 0));
    assert!(cut.pixels.is_empty());
}

#[test]
fn source_image_wants_the_exact_length() {
    assert!(SourceImage::new(2, 3, vec![0; 24]).is_some());
    assert!(SourceImage::new(2, 3, vec![0; 23]).is_none());
    assert!(SourceImage::new(2, 3, vec![0; 25]).is_none());
    assert!(SourceImage::new(0, 3, Vec::new()).is_some());
    assert!(SourceImage::new(u32::MAX, u32::MAX, vec![0; 4]).is_none());
    assert_eq!(SourceImage::new(2, 3, vec![0; 24]).unwrap().bounds(), rect(0, 0, 2, 3));
}

#[test]
fn crop_image_needs_a_committed_selection() {
    let source = numbered(20, 10);
    assert!(SelectionState::Idle.crop_image(&source).is_none());
    assert!(SelectionState::Cancelled.crop_image(&source).is_none());
    let committed = SelectionState::Committed { rect: rect(2, 3, 4, 5) };
    let cut = committed.crop_image(&source).unwrap();
    assert_eq!((cut.width, cut.height), (4, 5));
    assert_eq!(cut.pixels, crop(&source, rect(2, 3, 4, 5)).pixels);
}

#[test]
fn is_well_formed_wants_the_exact_length() {
    let frame = SourceImage { width: 2, height: 3, pixels: vec![0; 24] };
    assert!(frame.is_well_formed());
    assert!(!SourceImage { width: 2, height: 3, pixels: vec![0; 23] }.is_well_formed());
    assert!(!SourceImage { width: 2, height: 3, pixels: vec![0; 25] }.is_well_formed());
    assert!(SourceImage { width: 0, height: 3, pixels: Vec::new() }.is_well_formed());
    assert!(!SourceImage { width: u32::MAX, height: u32::MAX, pixels: vec![0; 4] }.is_well_formed());
    assert!(CroppedImage { width: 2, height: 3, pixels: vec![0; 24] }.is_well_formed());
    assert!(!CroppedImage { width: 2, height: 3, pixels: vec![0; 20] }.is_well_formed());
    assert!(CroppedImage { width: 7, height: 0, pixels: Vec::new() }.is_well_formed());
    assert!(crop(&numbered(20, 10), rect(-4, 7, 10, 10)).is_well_formed());
}
