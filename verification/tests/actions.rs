use region_select::actions::{
    conclude, start_action, Action, DecodeFailure, Notice, Report, Started,
};
use region_select::cropper::{crop, SourceImage};
use region_select::geometry::Rect;
use region_select::selection_logic::SelectionState;

fn rect(x: i64, y: i64, w: u64, h: u64) -> Rect {
    Rect { x, y, w, h }
}

fn frame() -> SourceImage {
    let pixels = (0..20u32 * 10 * 4).map(|n| (n % 253) as u8).collect();
    SourceImage::new(20, 10, pixels).unwrap()
}

#[test]
fn quit_needs_no_selection() {
    let source = frame();
    let states = [SelectionState::Idle, SelectionState::Committed { rect: rect(2, 3, 4, 5) }];
    for state in states {
        assert!(matches!(start_action(Action::Quit, &state, &source), Started::Quit));
    }
}

#[test]
fn actions_on_pixels_are_ignored_without_a_selection() {
    let source = frame();
    let dragging = SelectionState::Dragging {
        start: region_select::geometry::Point { x: 1, y: 1 },
        current: region_select::geometry::Point { x: 9, y: 9 },
    };
    for state in [SelectionState::Idle, dragging, SelectionState::Cancelled] {
        for action in [Action::Copy, Action::Save, Action::Scan] {
            assert!(matches!(start_action(action, &state, &source), Started::Ignored));
        }
    }
}

#[test]
fn actions_on_pixels_are_ignored_for_a_selection_without_area() {
    let source = frame();
    for made in [rect(5, 5, 0, 0), rect(5, 5, 3, 0), rect(40, 40, 5, 5), rect(-9, 0, 9, 9)] {
        let state = SelectionState::Committed { rect: made };
        for action in [Action::Copy, Action::Save, Action::Scan] {
            assert!(matches!(start_action(action, &state, &source), Started::Ignored));
        }
    }
}

#[test]
fn actions_on_pixels_get_the_cropped_selection() {
    let source = frame();
    let state = SelectionState::Committed { rect: rect(2, 3, 4, 5) };
    let expected = crop(&source, rect(2, 3, 4, 5));
    match start_action(Action::Copy, &state, &source) {
        Started::CopyImage(image) => {
            assert_eq!((image.width, image.height), (4, 5));
            assert_eq!(image.pixels, expected.pixels);
        }
        other => panic!("{:?}", other),
    }
    match start_action(Action::Save, &state, &source) {
        Started::AskSavePath(image) => assert_eq!(image.pixels, expected.pixels),
        other => panic!("{:?}", other),
    }
    match start_action(Action::Scan, &state, &source) {
        Started::Scan(image) => assert_eq!(image.pixels, expected.pixels),
        other => panic!("{:?}", other),
    }
}

#[test]
fn only_a_failed_scan_has_a_detail() {
    let reports = [
        Report::Copied(true),
        Report::Copied(false),
        Report::SaveDeclined,
        Report::Saved(true),
        Report::Saved(false),
        Report::Scanned(Ok(Some(String::from("text")))),
        Report::Scanned(Ok(None)),
        Report::TextCopied(true),
        Report::TextCopied(false),
    ];
    for report in reports {
        assert_eq!(conclude(report).detail, None);
    }
    let empty = conclude(Report::Scanned(Err(DecodeFailure { message: String::new() })));
    assert_eq!(empty.detail, Some(String::new()));
}

#[test]
fn copying_ends_the_session() {
    let after = conclude(Report::Copied(true));
    assert_eq!((after.copy_text, after.notice, after.quit), (None, None, true));
    let after = conclude(Report::Copied(false));
    assert_eq!((after.copy_text, after.notice, after.quit), (None, Some(Notice::CopyFailed), true));
}

#[test]
fn saving_ends_the_session_unless_declined() {
    let after = conclude(Report::Saved(true));
    assert_eq!((after.copy_text, after.notice, after.quit), (None, None, true));
    let after = conclude(Report::Saved(false));
    assert_eq!((after.copy_text, after.notice, after.quit), (None, Some(Notice::SaveFailed), true));
    let after = conclude(Report::SaveDeclined);
    assert_eq!((after.copy_text, after.notice, after.quit), (None, None, false));
}

#[test]
fn a_scanned_text_is_copied_before_the_session_ends() {
    let after = conclude(Report::Scanned(Ok(Some(String::from("hello")))));
    assert_eq!(
        (after.copy_text, after.notice, after.quit),
        (Some(String::from("hello")), None, false)
    );
    let after = conclude(Report::TextCopied(true));
    assert_eq!((after.copy_text, after.notice, after.quit), (None, None, true));
    let after = conclude(Report::TextCopied(false));
    assert_eq!((after.copy_text, after.notice, after.quit), (None, Some(Notice::CopyFailed), true));
}

#[test]
fn a_scan_without_a_text_keeps_the_session() {
    let after = conclude(Report::Scanned(Ok(None)));
    assert_eq!((after.copy_text, after.notice, after.quit), (None, Some(Notice::NoCodeFound), false));
    let failure = DecodeFailure { message: String::from("index out of bounds") };
    let after = conclude(Report::Scanned(Err(failure)));
    assert_eq!((after.copy_text, after.notice, after.quit), (None, Some(Notice::ScanFailed), false));
    assert_eq!(after.detail, Some(String::from("index out of bounds")));
}
