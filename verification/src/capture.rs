use vstd::prelude::*;
use vstd::string::StrSliceExecFns;
use crate::text::{ascii_lowercase, chars_of, contains_chars, has_infix, lowercase_chars, str_equal, trim, trimmed};

verus! {

/// The clipboard is put back after a capture only when the capture itself
/// pressed Ctrl+C, that copy changed the clipboard, and nothing changed it
/// since the capture read it.
pub fn should_restore_clipboard(
    synthetic_copy: bool,
    capture_changed_clipboard: bool,
    captured_version: u32,
    current_version: u32,
) -> (res: bool)
    ensures
        res == (synthetic_copy && capture_changed_clipboard && captured_version == current_version),
{
    synthetic_copy && capture_changed_clipboard && captured_version == current_version
}

/// Window labels of applications whose selection is better read through the
/// clipboard: the label, in ASCII lower case, mentions one of these.
pub open spec fn clipboard_first_label(lower: Seq<char>) -> bool {
    ||| has_infix(lower, "codex"@)
    ||| has_infix(lower, "chatgpt"@)
    ||| has_infix(lower, "thunderbird"@)
    ||| has_infix(lower, "mozillawindowclass"@)
    ||| has_infix(lower, "wechat"@)
    ||| has_infix(lower, "weixin"@)
}

/// Whether the foreground window described by `target` is one whose
/// selection is read through the clipboard: its label mentions Codex,
/// ChatGPT, Thunderbird, a Mozilla window class or WeChat (in any ASCII
/// case), or `微信`.
pub fn prefer_clipboard_capture(target: &str) -> (res: bool)
    ensures
        res == (clipboard_first_label(ascii_lowercase(target@)) || has_infix(target@, "微信"@)),
{
    let lower = lowercase_chars(target);
    contains_chars(&lower, &chars_of("codex")) || contains_chars(&lower, &chars_of("chatgpt"))
        || contains_chars(&lower, &chars_of("thunderbird")) || contains_chars(
        &lower,
        &chars_of("mozillawindowclass"),
    ) || contains_chars(&lower, &chars_of("wechat")) || contains_chars(&lower, &chars_of("weixin"))
        || contains_chars(&chars_of(target), &chars_of("微信"))
}

/// The longest selection, in characters, that is offered for translation.
pub open spec fn max_selection_chars() -> nat {
    12000
}

/// Whether captured text is offered for translation: it is not empty and at
/// most 12000 characters long.
pub fn is_acceptable_selection(text: &str) -> (res: bool)
    ensures
        res == (text@.len() > 0 && text@.len() <= max_selection_chars()),
{
    !text.is_empty() && text.unicode_len() <= 12000
}

/// A clipboard-based selection capture, after the previous clipboard text
/// was saved and a unique marker was put on the clipboard.
pub struct ClipboardCapture {
    /// The clipboard text before the capture (empty if unreadable).
    pub previous: String,
    /// The marker put on the clipboard before pressing the copy shortcut.
    pub marker: String,
    /// Once the copy shortcut produced something: the clipboard text it
    /// produced, and the selection (that text trimmed).
    pub copied: Option<(String, String)>,
}

/// What the capture reports back after doing what it was asked.
pub enum CaptureEvent {
    /// The copy shortcut could not be pressed, with the reason.
    CopyFailed(String),
    /// The copy shortcut was pressed; after a short wait the clipboard held
    /// this text (empty if unreadable).
    Copied(String),
    /// The clipboard read again: its text, if readable.
    Reread(Option<String>),
}

/// What the application does next in a clipboard capture.
pub enum CaptureAction {
    /// Read the clipboard text again and report it as `Reread`.
    ReadAgain,
    /// Put the previous text back on the clipboard, then return the result.
    RestoreAndFinish(Result<String, String>),
    /// Leave the clipboard alone and return the result.
    Finish(Result<String, String>),
}

/// The view of an optional clipboard text.
pub open spec fn text_view(o: Option<String>) -> Option<Seq<char>> {
    match o {
        Some(t) => Some(t@),
        None => None,
    }
}

/// The view of a capture result.
pub open spec fn result_view(r: Result<String, String>) -> Result<Seq<char>, Seq<char>> {
    match r {
        Ok(t) => Ok(t@),
        Err(e) => Err(e@),
    }
}

/// The contents of a clipboard capture action.
pub enum CaptureActionView {
    ReadAgain,
    RestoreAndFinish(Result<Seq<char>, Seq<char>>),
    Finish(Result<Seq<char>, Seq<char>>),
}

impl View for CaptureAction {
    type V = CaptureActionView;

    open spec fn view(&self) -> CaptureActionView {
        match self {
            CaptureAction::ReadAgain => CaptureActionView::ReadAgain,
            CaptureAction::RestoreAndFinish(r) => CaptureActionView::RestoreAndFinish(result_view(*r)),
            CaptureAction::Finish(r) => CaptureActionView::Finish(result_view(*r)),
        }
    }
}

impl ClipboardCapture {
    /// A capture that has just put `marker` on the clipboard, which held
    /// `previous` before.
    pub fn new(previous: String, marker: String) -> (c: ClipboardCapture)
        ensures
            c.previous == previous,
            c.marker == marker,
            c.copied is None,
    {
        ClipboardCapture { previous, marker, copied: None }
    }

    /// `event` is the report the capture is waiting for: the outcome of the
    /// copy shortcut first, then the second clipboard read.
    pub open spec fn expects(&self, event: CaptureEvent) -> bool {
        match event {
            CaptureEvent::CopyFailed(_) => self.copied is None,
            CaptureEvent::Copied(_) => self.copied is None,
            CaptureEvent::Reread(_) => self.copied is Some,
        }
    }

    /// The decision for `event`: a failed copy puts the previous text back
    /// and fails; a copy that left the marker in place means there was no
    /// selection, so the previous text is put back and the selection is
    /// empty; otherwise the selection is the copied text trimmed, and the
    /// previous text is put back only if the clipboard still holds exactly
    /// the copied text, so that anything the user copied meanwhile stays.
    pub open spec fn decision(self, event: CaptureEvent) -> (Option<(Seq<char>, Seq<char>)>, CaptureActionView) {
        match event {
            CaptureEvent::CopyFailed(reason) => (None, CaptureActionView::RestoreAndFinish(Err(reason@))),
            CaptureEvent::Copied(text) => if text@ == self.marker@ {
                (None, CaptureActionView::RestoreAndFinish(Ok(Seq::empty())))
            } else {
                (Some((text@, trim(text@))), CaptureActionView::ReadAgain)
            },
            CaptureEvent::Reread(current) => {
                let (copied, selected) = match self.copied {
                    Some((c, t)) => (c@, t@),
                    None => (Seq::empty(), Seq::empty()),
                };
                if text_view(current) == Some(copied) {
                    (Some((copied, selected)), CaptureActionView::RestoreAndFinish(Ok(selected)))
                } else {
                    (Some((copied, selected)), CaptureActionView::Finish(Ok(selected)))
                }
            },
        }
    }

    /// The view of what was copied so far.
    pub open spec fn copied_view(&self) -> Option<(Seq<char>, Seq<char>)> {
        match self.copied {
            Some((c, t)) => Some((c@, t@)),
            None => None,
        }
    }
}

/// Takes the next step of a clipboard-based selection capture (see
/// `ClipboardCapture::decision`).
pub fn read_selected_text(capture: &mut ClipboardCapture, event: CaptureEvent) -> (action: CaptureAction)
    requires
        old(capture).expects(event),
    ensures
        final(capture).previous == old(capture).previous,
        final(capture).marker == old(capture).marker,
        (final(capture).copied_view(), action@) == old(capture).decision(event),
{
    match event {
        CaptureEvent::CopyFailed(reason) => CaptureAction::RestoreAndFinish(Err(reason)),
        CaptureEvent::Copied(text) => {
            if str_equal(text.as_str(), capture.marker.as_str()) {
                CaptureAction::RestoreAndFinish(Ok(String::new()))
            } else {
                let selected = trimmed(text.as_str());
                capture.copied = Some((text, selected));
                CaptureAction::ReadAgain
            }
        },
        CaptureEvent::Reread(current) => {
            let unchanged = match (&current, &capture.copied) {
                (Some(now), Some((copied, _))) => str_equal(now.as_str(), copied.as_str()),
                _ => false,
            };
            let selected = match &capture.copied {
                Some((_, selected)) => selected.clone(),
                None => String::new(),
            };
            if unchanged {
                CaptureAction::RestoreAndFinish(Ok(selected))
            } else {
                CaptureAction::Finish(Ok(selected))
            }
        },
    }
}

/// What becomes of a finished capture.
pub enum SelectionOutcome {
    /// A newer press made the capture stale: leave everything as it is.
    Discard,
    /// There is no usable selection: hide the button and forget the
    /// selection.
    HideAndClear,
    /// Offer this text: store it and show the translate button.
    Show(String),
}

/// The outcome of a capture, given whether it still belongs to the newest
/// generation and what reading the selection gave: a stale capture is
/// discarded (a failed read only hides the button while still current); a
/// read selection is offered when it is not empty and at most 12000
/// characters long, and hides the button otherwise.
pub fn selection_outcome(still_latest: bool, read: Result<String, String>) -> (res: SelectionOutcome)
    ensures
        match read {
            Err(_) => if still_latest { res is HideAndClear } else { res is Discard },
            Ok(text) => if !still_latest {
                res is Discard
            } else if text@.len() > 0 && text@.len() <= max_selection_chars() {
                res matches SelectionOutcome::Show(t) && t == text
            } else {
                res is HideAndClear
            },
        },
{
    match read {
        Err(_) => if still_latest {
            SelectionOutcome::HideAndClear
        } else {
            SelectionOutcome::Discard
        },
        Ok(text) => {
            if !still_latest {
                SelectionOutcome::Discard
            } else if is_acceptable_selection(text.as_str()) {
                SelectionOutcome::Show(text)
            } else {
                SelectionOutcome::HideAndClear
            }
        },
    }
}

/// A clipboard capture puts the previous text back after reading the
/// selection only while the clipboard still holds exactly what the copy
/// produced, so text the user copied meanwhile is never overwritten; and when
/// the copy shortcut produced nothing (the marker is still there), the
/// previous text is always put back.
pub proof fn lemma_capture_keeps_newer_clipboard(c: ClipboardCapture, event: CaptureEvent)
    requires
        c.expects(event),
    ensures
        event matches CaptureEvent::Reread(current) ==> (c.decision(event).1 is RestoreAndFinish
            <==> (c.copied_view() matches Some((copied, _)) && text_view(current) == Some(copied))),
        event matches CaptureEvent::Copied(text) ==> (text@ == c.marker@ ==> c.decision(event).1
            == CaptureActionView::RestoreAndFinish(Ok(Seq::empty()))),
{
}

/// A copy that produced anything but the marker is a selection, whatever
/// the clipboard held before: the capture records that text and its trimmed
/// form and reads the clipboard again; and however that second read turns
/// out, the capture finishes successfully with the copied text trimmed.
pub proof fn lemma_copied_text_is_the_selection(
    c: ClipboardCapture,
    text: String,
    after: ClipboardCapture,
    current: Option<String>,
)
    requires
        c.copied is None,
        text@ != c.marker@,
        after.marker == c.marker,
        after.previous == c.previous,
        after.copied_view() == c.decision(CaptureEvent::Copied(text)).0,
    ensures
        c.decision(CaptureEvent::Copied(text)).0 == Some((text@, trim(text@))),
        c.decision(CaptureEvent::Copied(text)).1 == CaptureActionView::ReadAgain,
        after.expects(CaptureEvent::Reread(current)),
        match after.decision(CaptureEvent::Reread(current)).1 {
            CaptureActionView::RestoreAndFinish(r) => r == Ok::<Seq<char>, Seq<char>>(trim(text@)),
            CaptureActionView::Finish(r) => r == Ok::<Seq<char>, Seq<char>>(trim(text@)),
            CaptureActionView::ReadAgain => false,
        },
{
}

} // verus!
