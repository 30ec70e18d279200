//! The actions of the menu: what each one needs before it can run, and
//! what follows once the host has done its part.

use vstd::prelude::*;
use crate::cropper::{crop, is_crop_of, CroppedImage, SourceImage};
use crate::geometry::{clamp_spec, Rect};
use crate::qrcode::text_of;
use crate::selection_logic::SelectionState;

verus! {

/// An entry of the menu.
#[derive(Clone, Copy, Debug, PartialEq, Eq, Structural)]
pub enum Action {
    /// Put the selected pixels on the clipboard.
    Copy,
    /// Write the selected pixels to a file that the user picks.
    Save,
    /// Read a QR code out of the selected pixels.
    Scan,
    /// End the session.
    Quit,
}

/// What the host has to do first for an action.
#[derive(Clone, Debug)]
pub enum Started {
    /// Nothing: there are no pixels to act on.
    Ignored,
    /// End the session.
    Quit,
    /// Put these pixels on the clipboard.
    CopyImage(CroppedImage),
    /// Ask where to save these pixels.
    AskSavePath(CroppedImage),
    /// Scan these pixels.
    Scan(CroppedImage),
}

/// The decoder could not finish its work on the pixels.
#[derive(Debug)]
pub struct DecodeFailure {
    /// What went wrong, in the decoder's words.
    pub message: String,
}

/// What the host reports back once its part of an action is done.
#[derive(Debug)]
pub enum Report {
    /// The pixels were put on the clipboard, or could not be.
    Copied(bool),
    /// The user closed the save dialog without picking a file.
    SaveDeclined,
    /// The pixels were written to the picked file, or could not be.
    Saved(bool),
    /// The scan came back: with the text of a code, without one, or not
    /// at all.
    Scanned(Result<Option<String>, DecodeFailure>),
    /// The text of a code was put on the clipboard, or could not be.
    TextCopied(bool),
}

/// Something to tell the user.
#[derive(Clone, Copy, Debug, PartialEq, Eq, Structural)]
pub enum Notice {
    CopyFailed,
    SaveFailed,
    NoCodeFound,
    ScanFailed,
}

/// What follows a report.
#[derive(Clone, Debug)]
pub struct Conclusion {
    /// Put this text on the clipboard and report back.
    pub copy_text: Option<String>,
    /// Tell the user.
    pub notice: Option<Notice>,
    /// What to add to the notice: the words of a failure.
    pub detail: Option<String>,
    /// End the session.
    pub quit: bool,
}

/// The rectangle whose pixels an action works on: the committed one, if
/// any of it lies inside the frame.
pub open spec fn usable_selection(state: SelectionState, source: SourceImage) -> Option<Rect> {
    match state.spec_selection() {
        Some(rect) => if clamp_spec(rect, source.width, source.height).spec_is_empty() {
            None
        } else {
            Some(rect)
        },
        None => None,
    }
}

/// Whether `started` is the right first step for `action`.
///
/// Quitting needs nothing. Every other action needs pixels: without a
/// usable selection it is ignored, with one it gets the selection's
/// pixels.
pub open spec fn starts(
    started: Started,
    action: Action,
    state: SelectionState,
    source: SourceImage,
) -> bool {
    match action {
        Action::Quit => started is Quit,
        _ => match usable_selection(state, source) {
            None => started is Ignored,
            Some(rect) => match started {
                Started::CopyImage(image) => action is Copy && is_crop_of(image, source, rect)
                    && !image.spec_is_empty(),
                Started::AskSavePath(image) => action is Save && is_crop_of(image, source, rect)
                    && !image.spec_is_empty(),
                Started::Scan(image) => action is Scan && is_crop_of(image, source, rect)
                    && !image.spec_is_empty(),
                _ => false,
            },
        },
    }
}

/// What follows a report, for every report.
///
/// Copying and saving end the session whether they worked or not, with a
/// notice if they did not; a save dialog that was closed changes nothing.
/// A scan that found a text asks for the text to be copied, and the
/// session ends once that is done; a scan that found nothing, or failed,
/// gives a notice and the session goes on. Only the notice of a failed
/// scan has a detail: the words of the failure.
pub open spec fn concludes(after: Conclusion, report: Report) -> bool {
    match report {
        Report::Copied(done) => after.copy_text.is_none() && after.detail.is_none() && after.quit
            && after.notice == (if done { None } else { Some(Notice::CopyFailed) }),
        Report::SaveDeclined => after.copy_text.is_none() && after.detail.is_none()
            && !after.quit && after.notice.is_none(),
        Report::Saved(done) => after.copy_text.is_none() && after.detail.is_none() && after.quit
            && after.notice == (if done { None } else { Some(Notice::SaveFailed) }),
        Report::Scanned(Ok(Some(text))) => text_of(after.copy_text) == Some(text@)
            && after.detail.is_none() && !after.quit && after.notice.is_none(),
        Report::Scanned(Ok(None)) => after.copy_text.is_none() && after.detail.is_none()
            && !after.quit && after.notice == Some(Notice::NoCodeFound),
        Report::Scanned(Err(failure)) => after.copy_text.is_none() && text_of(after.detail)
            == Some(failure.message@) && !after.quit && after.notice == Some(Notice::ScanFailed),
        Report::TextCopied(done) => after.copy_text.is_none() && after.detail.is_none()
            && after.quit && after.notice == (if done { None } else { Some(Notice::CopyFailed) }),
    }
}

/// Decides the first step of `action`, cutting the selection's pixels out
/// of `source` where the action needs them.
pub fn start_action(action: Action, state: &SelectionState, source: &SourceImage) -> (started:
    Started)
    requires
        source.well_formed(),
    ensures
        starts(started, action, *state, *source),
{
    if let Action::Quit = action {
        return Started::Quit;
    }
    match state.selection() {
        Some(rect) => {
            let image: CroppedImage = crop(source, rect);
            if image.is_empty() {
                Started::Ignored
            } else {
                match action {
                    Action::Copy => Started::CopyImage(image),
                    Action::Save => Started::AskSavePath(image),
                    Action::Scan => Started::Scan(image),
                    Action::Quit => Started::Quit,
                }
            }
        },
        None => Started::Ignored,
    }
}

/// Decides what follows the host's report.
pub fn conclude(report: Report) -> (after: Conclusion)
    ensures
        concludes(after, report),
{
    match report {
        Report::Copied(done) | Report::TextCopied(done) => Conclusion {
            copy_text: None,
            notice: if done { None } else { Some(Notice::CopyFailed) },
            detail: None,
            quit: true,
        },
        Report::Saved(done) => Conclusion {
            copy_text: None,
            notice: if done { None } else { Some(Notice::SaveFailed) },
            detail: None,
            quit: true,
        },
        Report::SaveDeclined => Conclusion {
            copy_text: None,
            notice: None,
            detail: None,
            quit: false,
        },
        Report::Scanned(Ok(Some(text))) => Conclusion {
            copy_text: Some(text),
            notice: None,
            detail: None,
            quit: false,
        },
        Report::Scanned(Ok(None)) => Conclusion {
            copy_text: None,
            notice: Some(Notice::NoCodeFound),
            detail: None,
            quit: false,
        },
        Report::Scanned(Err(failure)) => Conclusion {
            copy_text: None,
            notice: Some(Notice::ScanFailed),
            detail: Some(failure.message),
            quit: false,
        },
    }
}

} // verus!
