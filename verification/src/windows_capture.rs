use vstd::prelude::*;
use crate::capture::should_restore_clipboard;
use crate::text::{str_equal, trim, trimmed};

verus! {

/// Where a clipboard-sequence capture stands, and which report it waits for.
#[derive(Clone, Copy, Debug, PartialEq, Eq, Structural)]
pub enum SequencePhase {
    /// Giving the user's own Ctrl+C priority: waiting for the report of
    /// round `tick` (of 30).
    WatchUserCopy { tick: u32 },
    /// Waiting to learn whether the user is pressing keys.
    CheckKeyboard,
    /// Waiting for the synthetic Ctrl+C to be sent.
    SendCopy,
    /// Waiting for poll `polls` (of 50) of the clipboard sequence number.
    Poll { polls: u32 },
    /// Waiting for the clipboard owner to finish: round `rounds` (of 15),
    /// after `stable` unchanged readings in a row.
    Stabilize { rounds: u32, stable: u32 },
    /// Waiting for attempt `attempts` (of 25) to read the clipboard text.
    ReadText { attempts: u32 },
    /// Waiting for the clipboard sequence number at the end of the capture.
    FinalSequence,
    /// The capture is over.
    Done,
}

/// A report from the system to a sequence capture.
pub enum SequenceReport {
    /// The clipboard sequence number and whether the user is pressing keys.
    UserCopyTick { sequence: u32, keyboard_active: bool },
    /// Whether the user is pressing keys.
    Keyboard { active: bool },
    /// Whether the synthetic Ctrl+C was delivered.
    CopySent { delivered: bool },
    /// The clipboard sequence number.
    Sequence(u32),
    /// The clipboard text, if readable.
    Text(Option<String>),
    /// The clipboard sequence number at the end of the capture.
    FinalSequence(u32),
}

/// What the application does next in a sequence capture. Each `wait_ms` is a
/// pause to take before looking.
pub enum SequenceStep {
    /// Report the clipboard sequence number and keyboard activity.
    WatchUserCopy { wait_ms: u32 },
    /// Report whether the user is pressing keys.
    CheckKeyboard { wait_ms: u32 },
    /// Send the synthetic Ctrl+C and report whether it was delivered.
    SendCopy,
    /// Report the clipboard sequence number.
    ReadSequence { wait_ms: u32 },
    /// Report the clipboard text.
    ReadText { wait_ms: u32 },
    /// Report the clipboard sequence number for the restore decision.
    ReadFinalSequence { wait_ms: u32 },
    /// The capture is over: restore the original clipboard when `restore`
    /// holds, and hand back `text` as the selection (empty for none).
    Finish { restore: bool, text: String },
}

/// A selection capture that watches the clipboard sequence number: it lets a
/// user's own Ctrl+C win, otherwise sends a synthetic Ctrl+C unless the user
/// is typing, waits for the clipboard to change and settle, reads its text,
/// and undoes its own copy if nothing newer arrived.
pub struct SequenceCapture {
    /// The clipboard text before the capture (empty when it held none).
    pub original_text: String,
    pub original_sequence: u32,
    pub current_sequence: u32,
    pub sequence_changed: bool,
    pub synthetic_copy: bool,
    /// The clipboard text read by the capture, trimmed (empty if none).
    pub current_text: String,
    pub phase: SequencePhase,
}

/// The contents of a sequence capture.
pub struct SequenceCaptureView {
    pub original_text: Seq<char>,
    pub original_sequence: u32,
    pub current_sequence: u32,
    pub sequence_changed: bool,
    pub synthetic_copy: bool,
    pub current_text: Seq<char>,
    pub phase: SequencePhase,
}

impl View for SequenceCapture {
    type V = SequenceCaptureView;

    open spec fn view(&self) -> SequenceCaptureView {
        SequenceCaptureView {
            original_text: self.original_text@,
            original_sequence: self.original_sequence,
            current_sequence: self.current_sequence,
            sequence_changed: self.sequence_changed,
            synthetic_copy: self.synthetic_copy,
            current_text: self.current_text@,
            phase: self.phase,
        }
    }
}

/// The contents of a report.
pub enum SequenceReportView {
    UserCopyTick { sequence: u32, keyboard_active: bool },
    Keyboard { active: bool },
    CopySent { delivered: bool },
    Sequence(u32),
    Text(Option<Seq<char>>),
    FinalSequence(u32),
}

impl View for SequenceReport {
    type V = SequenceReportView;

    open spec fn view(&self) -> SequenceReportView {
        match self {
            SequenceReport::UserCopyTick { sequence, keyboard_active } => SequenceReportView::UserCopyTick {
                sequence: *sequence,
                keyboard_active: *keyboard_active,
            },
            SequenceReport::Keyboard { active } => SequenceReportView::Keyboard { active: *active },
            SequenceReport::CopySent { delivered } => SequenceReportView::CopySent { delivered: *delivered },
            SequenceReport::Sequence(s) => SequenceReportView::Sequence(*s),
            SequenceReport::Text(t) => SequenceReportView::Text(
                match t {
                    Some(v) => Some(v@),
                    None => None,
                },
            ),
            SequenceReport::FinalSequence(s) => SequenceReportView::FinalSequence(*s),
        }
    }
}

/// The contents of a step.
pub enum SequenceStepView {
    WatchUserCopy { wait_ms: u32 },
    CheckKeyboard { wait_ms: u32 },
    SendCopy,
    ReadSequence { wait_ms: u32 },
    ReadText { wait_ms: u32 },
    ReadFinalSequence { wait_ms: u32 },
    Finish { restore: bool, text: Seq<char> },
}

impl View for SequenceStep {
    type V = SequenceStepView;

    open spec fn view(&self) -> SequenceStepView {
        match self {
            SequenceStep::WatchUserCopy { wait_ms } => SequenceStepView::WatchUserCopy { wait_ms: *wait_ms },
            SequenceStep::CheckKeyboard { wait_ms } => SequenceStepView::CheckKeyboard { wait_ms: *wait_ms },
            SequenceStep::SendCopy => SequenceStepView::SendCopy,
            SequenceStep::ReadSequence { wait_ms } => SequenceStepView::ReadSequence { wait_ms: *wait_ms },
            SequenceStep::ReadText { wait_ms } => SequenceStepView::ReadText { wait_ms: *wait_ms },
            SequenceStep::ReadFinalSequence { wait_ms } => SequenceStepView::ReadFinalSequence { wait_ms: *wait_ms },
            SequenceStep::Finish { restore, text } => SequenceStepView::Finish { restore: *restore, text: text@ },
        }
    }
}

/// The capture after the clipboard changed (by the user's copy or the
/// synthetic one) or stayed unchanged through all polls: settle the sequence
/// number when it changed, else go read the text.
pub open spec fn after_polling(c: SequenceCaptureView) -> (SequenceCaptureView, SequenceStepView) {
    if c.sequence_changed {
        (
            SequenceCaptureView { phase: SequencePhase::Stabilize { rounds: 0, stable: 0 }, ..c },
            SequenceStepView::ReadSequence { wait_ms: 20 },
        )
    } else {
        (SequenceCaptureView { phase: SequencePhase::ReadText { attempts: 0 }, ..c }, SequenceStepView::ReadText { wait_ms: 0 })
    }
}

/// The selection a finished capture hands back: the text it read, unless the
/// clipboard neither changed nor holds a text other than before, or nothing
/// was read.
pub open spec fn captured_selection(c: SequenceCaptureView) -> Seq<char> {
    let content_changed = c.current_text != trim(c.original_text);
    if !(c.sequence_changed || content_changed) || c.current_text.len() == 0 {
        Seq::empty()
    } else {
        c.current_text
    }
}

/// The capture ends without a selection and without touching the clipboard.
pub open spec fn abandoned(c: SequenceCaptureView) -> (SequenceCaptureView, SequenceStepView) {
    (SequenceCaptureView { phase: SequencePhase::Done, ..c }, SequenceStepView::Finish { restore: false, text: Seq::empty() })
}

impl SequenceCaptureView {
    /// The report matches what the capture waits for.
    pub open spec fn expects(self, report: SequenceReportView) -> bool {
        match self.phase {
            SequencePhase::WatchUserCopy { .. } => report is UserCopyTick,
            SequencePhase::CheckKeyboard => report is Keyboard,
            SequencePhase::SendCopy => report is CopySent,
            SequencePhase::Poll { .. } => report is Sequence,
            SequencePhase::Stabilize { .. } => report is Sequence,
            SequencePhase::ReadText { .. } => report is Text,
            SequencePhase::FinalSequence => report is FinalSequence,
            SequencePhase::Done => false,
        }
    }

    /// The round counters stay within their limits, and the phases before
    /// the clipboard changed are only reached while it is unchanged.
    pub open spec fn wf(self) -> bool {
        match self.phase {
            SequencePhase::WatchUserCopy { tick } => tick < 30 && !self.sequence_changed,
            SequencePhase::CheckKeyboard => !self.sequence_changed,
            SequencePhase::SendCopy => !self.sequence_changed,
            SequencePhase::Poll { polls } => polls < 50 && !self.sequence_changed,
            SequencePhase::Stabilize { rounds, stable } => rounds < 15 && stable < 3,
            SequencePhase::ReadText { attempts } => attempts < 25,
            _ => true,
        }
    }

    /// The capture and the next step after `report`.
    pub open spec fn next(self, report: SequenceReportView) -> (SequenceCaptureView, SequenceStepView) {
        match (self.phase, report) {
            (SequencePhase::WatchUserCopy { tick }, SequenceReportView::UserCopyTick { sequence, keyboard_active }) => {
                let c = SequenceCaptureView { current_sequence: sequence, ..self };
                if sequence != self.original_sequence {
                    after_polling(SequenceCaptureView { sequence_changed: true, ..c })
                } else if tick >= 8 && !keyboard_active {
                    (SequenceCaptureView { phase: SequencePhase::CheckKeyboard, ..c }, SequenceStepView::CheckKeyboard { wait_ms: 0 })
                } else if tick + 1 < 30 {
                    (
                        SequenceCaptureView { phase: SequencePhase::WatchUserCopy { tick: (tick + 1) as u32 }, ..c },
                        SequenceStepView::WatchUserCopy { wait_ms: 10 },
                    )
                } else {
                    (SequenceCaptureView { phase: SequencePhase::CheckKeyboard, ..c }, SequenceStepView::CheckKeyboard { wait_ms: 10 })
                }
            },
            (SequencePhase::CheckKeyboard, SequenceReportView::Keyboard { active }) => if active {
                abandoned(self)
            } else {
                (SequenceCaptureView { phase: SequencePhase::SendCopy, ..self }, SequenceStepView::SendCopy)
            },
            (SequencePhase::SendCopy, SequenceReportView::CopySent { delivered }) => if !delivered {
                abandoned(self)
            } else {
                (
                    SequenceCaptureView { synthetic_copy: true, phase: SequencePhase::Poll { polls: 0 }, ..self },
                    SequenceStepView::ReadSequence { wait_ms: 20 },
                )
            },
            (SequencePhase::Poll { polls }, SequenceReportView::Sequence(sequence)) => {
                let c = SequenceCaptureView { current_sequence: sequence, ..self };
                if sequence != self.original_sequence {
                    after_polling(SequenceCaptureView { sequence_changed: true, ..c })
                } else if polls + 1 < 50 {
                    (
                        SequenceCaptureView { phase: SequencePhase::Poll { polls: (polls + 1) as u32 }, ..c },
                        SequenceStepView::ReadSequence { wait_ms: 20 },
                    )
                } else {
                    after_polling(c)
                }
            },
            (SequencePhase::Stabilize { rounds, stable }, SequenceReportView::Sequence(sequence)) => {
                let (c, s) = if sequence == self.current_sequence {
                    (self, stable + 1)
                } else {
                    (SequenceCaptureView { current_sequence: sequence, ..self }, 0)
                };
                if s >= 3 || rounds + 1 >= 15 {
                    (SequenceCaptureView { phase: SequencePhase::ReadText { attempts: 0 }, ..c }, SequenceStepView::ReadText { wait_ms: 0 })
                } else {
                    (
                        SequenceCaptureView {
                            phase: SequencePhase::Stabilize { rounds: (rounds + 1) as u32, stable: s as u32 },
                            ..c
                        },
                        SequenceStepView::ReadSequence { wait_ms: 20 },
                    )
                }
            },
            (SequencePhase::ReadText { attempts }, SequenceReportView::Text(text)) => {
                if text matches Some(t) && trim(t).len() > 0 {
                    (
                        SequenceCaptureView { current_text: trim(text->0), phase: SequencePhase::FinalSequence, ..self },
                        SequenceStepView::ReadFinalSequence { wait_ms: 0 },
                    )
                } else if attempts + 1 < 25 {
                    (
                        SequenceCaptureView { phase: SequencePhase::ReadText { attempts: (attempts + 1) as u32 }, ..self },
                        SequenceStepView::ReadText { wait_ms: 20 },
                    )
                } else {
                    (SequenceCaptureView { phase: SequencePhase::FinalSequence, ..self }, SequenceStepView::ReadFinalSequence { wait_ms: 20 })
                }
            },
            (SequencePhase::FinalSequence, SequenceReportView::FinalSequence(version)) => (
                SequenceCaptureView { phase: SequencePhase::Done, ..self },
                SequenceStepView::Finish {
                    restore: self.synthetic_copy && self.sequence_changed && self.current_sequence == version,
                    text: captured_selection(self),
                },
            ),
            _ => (self, SequenceStepView::Finish { restore: false, text: Seq::empty() }),
        }
    }
}

impl SequenceCapture {
    /// Starts a capture from the clipboard text and sequence number taken
    /// before it; the first step watches for the user's own copy.
    pub fn start(original_text: String, original_sequence: u32) -> (res: (SequenceCapture, SequenceStep))
        ensures
            res.0@.original_text == original_text@,
            res.0@.original_sequence == original_sequence,
            res.0@.current_sequence == original_sequence,
            !res.0@.sequence_changed,
            !res.0@.synthetic_copy,
            res.0@.current_text == Seq::<char>::empty(),
            res.0@.phase == (SequencePhase::WatchUserCopy { tick: 0 }),
            res.0@.wf(),
            res.1@ == (SequenceStepView::WatchUserCopy { wait_ms: 0 }),
    {
        (
            SequenceCapture {
                original_text,
                original_sequence,
                current_sequence: original_sequence,
                sequence_changed: false,
                synthetic_copy: false,
                current_text: String::new(),
                phase: SequencePhase::WatchUserCopy { tick: 0 },
            },
            SequenceStep::WatchUserCopy { wait_ms: 0 },
        )
    }

    /// Enters the phase after polling (see `after_polling`).
    fn after_polling(&mut self) -> (step: SequenceStep)
        ensures
            (final(self)@, step@) == after_polling(old(self)@),
    {
        if self.sequence_changed {
            self.phase = SequencePhase::Stabilize { rounds: 0, stable: 0 };
            SequenceStep::ReadSequence { wait_ms: 20 }
        } else {
            self.phase = SequencePhase::ReadText { attempts: 0 };
            SequenceStep::ReadText { wait_ms: 0 }
        }
    }

    /// Ends the capture without a selection and without touching the
    /// clipboard.
    fn abandon(&mut self) -> (step: SequenceStep)
        ensures
            (final(self)@, step@) == abandoned(old(self)@),
    {
        self.phase = SequencePhase::Done;
        SequenceStep::Finish { restore: false, text: String::new() }
    }

    /// Takes the report the capture waited for and returns the next step
    /// (see `SequenceCaptureView::next`).
    pub fn advance(&mut self, report: SequenceReport) -> (step: SequenceStep)
        requires
            old(self)@.wf(),
            old(self)@.expects(report@),
        ensures
            final(self)@.wf(),
            (final(self)@, step@) == old(self)@.next(report@),
    {
        match (self.phase, report) {
            (SequencePhase::WatchUserCopy { tick }, SequenceReport::UserCopyTick { sequence, keyboard_active }) => {
                self.current_sequence = sequence;
                if sequence != self.original_sequence {
                    self.sequence_changed = true;
                    self.after_polling()
                } else if tick >= 8 && !keyboard_active {
                    self.phase = SequencePhase::CheckKeyboard;
                    SequenceStep::CheckKeyboard { wait_ms: 0 }
                } else if tick + 1 < 30 {
                    self.phase = SequencePhase::WatchUserCopy { tick: tick + 1 };
                    SequenceStep::WatchUserCopy { wait_ms: 10 }
                } else {
                    self.phase = SequencePhase::CheckKeyboard;
                    SequenceStep::CheckKeyboard { wait_ms: 10 }
                }
            },
            (SequencePhase::CheckKeyboard, SequenceReport::Keyboard { active }) => {
                if active {
                    self.abandon()
                } else {
                    self.phase = SequencePhase::SendCopy;
                    SequenceStep::SendCopy
                }
            },
            (SequencePhase::SendCopy, SequenceReport::CopySent { delivered }) => {
                if !delivered {
                    self.abandon()
                } else {
                    self.synthetic_copy = true;
                    self.phase = SequencePhase::Poll { polls: 0 };
                    SequenceStep::ReadSequence { wait_ms: 20 }
                }
            },
            (SequencePhase::Poll { polls }, SequenceReport::Sequence(sequence)) => {
                self.current_sequence = sequence;
                if sequence != self.original_sequence {
                    self.sequence_changed = true;
                    self.after_polling()
                } else if polls + 1 < 50 {
                    self.phase = SequencePhase::Poll { polls: polls + 1 };
                    SequenceStep::ReadSequence { wait_ms: 20 }
                } else {
                    self.after_polling()
                }
            },
            (SequencePhase::Stabilize { rounds, stable }, SequenceReport::Sequence(sequence)) => {
                let s: u32 = if sequence == self.current_sequence {
                    stable + 1
                } else {
                    self.current_sequence = sequence;
                    0
                };
                if s >= 3 || rounds + 1 >= 15 {
                    self.phase = SequencePhase::ReadText { attempts: 0 };
                    SequenceStep::ReadText { wait_ms: 0 }
                } else {
                    self.phase = SequencePhase::Stabilize { rounds: rounds + 1, stable: s };
                    SequenceStep::ReadSequence { wait_ms: 20 }
                }
            },
            (SequencePhase::ReadText { attempts }, SequenceReport::Text(text)) => {
                let read = match text {
                    Some(t) => {
                        let value = trimmed(t.as_str());
                        if value.as_str().is_empty() {
                            None
                        } else {
                            Some(value)
                        }
                    },
                    None => None,
                };
                match read {
                    Some(value) => {
                        self.current_text = value;
                        self.phase = SequencePhase::FinalSequence;
                        SequenceStep::ReadFinalSequence { wait_ms: 0 }
                    },
                    None => {
                        if attempts + 1 < 25 {
                            self.phase = SequencePhase::ReadText { attempts: attempts + 1 };
                            SequenceStep::ReadText { wait_ms: 20 }
                        } else {
                            self.phase = SequencePhase::FinalSequence;
                            SequenceStep::ReadFinalSequence { wait_ms: 20 }
                        }
                    },
                }
            },
            (SequencePhase::FinalSequence, SequenceReport::FinalSequence(version)) => {
                let original = trimmed(self.original_text.as_str());
                let content_changed = !str_equal(self.current_text.as_str(), original.as_str());
                let restore = should_restore_clipboard(
                    self.synthetic_copy,
                    self.sequence_changed,
                    self.current_sequence,
                    version,
                );
                let text = if !(self.sequence_changed || content_changed) || self.current_text.as_str().is_empty() {
                    String::new()
                } else {
                    self.current_text.clone()
                };
                self.phase = SequencePhase::Done;
                SequenceStep::Finish { restore, text }
            },
            _ => SequenceStep::Finish { restore: false, text: String::new() },
        }
    }
}

/// What the clipboard held before a capture, as text, for when its full
/// contents cannot be put back.
pub enum ClipboardFallback {
    /// The clipboard held this text.
    Text(String),
    /// The clipboard held nothing.
    Empty,
    /// The clipboard held something other than text.
    Unavailable,
}

/// The clipboard text before a capture: the saved text, or empty when the
/// clipboard held none.
pub fn original_clipboard_text(fallback: &ClipboardFallback) -> (res: String)
    ensures
        res@ == match fallback {
            ClipboardFallback::Text(t) => t@,
            _ => Seq::empty(),
        },
{
    match fallback {
        ClipboardFallback::Text(t) => t.clone(),
        _ => String::new(),
    }
}

/// How the clipboard is put back when its full contents could not be.
pub enum FallbackRestore {
    /// Put this text on the clipboard.
    SetText(String),
    /// Empty the clipboard.
    Clear,
    /// Give up with this reason.
    Fail(String),
}

/// The message when neither the full contents nor a text were saved.
pub open spec fn uncaptured_format_message() -> Seq<char> {
    "original clipboard format could not be captured"@
}

/// The fallback restore after the full contents could not be put back
/// (`ole_error` holds why, if they were saved at all): put the saved text
/// back, or empty a clipboard that was empty; when neither is known, fail
/// with the reason the full restore failed, or say the format was not saved.
pub fn fallback_restore(fallback: ClipboardFallback, ole_error: Option<String>) -> (res: FallbackRestore)
    ensures
        match fallback {
            ClipboardFallback::Text(t) => res matches FallbackRestore::SetText(u) && u == t,
            ClipboardFallback::Empty => res is Clear,
            ClipboardFallback::Unavailable => res matches FallbackRestore::Fail(m) && m@ == match ole_error {
                Some(e) => e@,
                None => uncaptured_format_message(),
            },
        },
{
    match fallback {
        ClipboardFallback::Text(t) => FallbackRestore::SetText(t),
        ClipboardFallback::Empty => FallbackRestore::Clear,
        ClipboardFallback::Unavailable => match ole_error {
            Some(e) => FallbackRestore::Fail(e),
            None => FallbackRestore::Fail("original clipboard format could not be captured".to_owned()),
        },
    }
}

/// The reason a restore failed when the fallback failed too: both reasons
/// when the full restore was tried, else the fallback's alone.
pub fn restore_failure(ole_error: Option<String>, fallback_error: String) -> (res: String)
    ensures
        res@ == match ole_error {
            Some(e) => "OLE: "@ + e@ + "; fallback: "@ + fallback_error@,
            None => fallback_error@,
        },
{
    match ole_error {
        Some(e) => {
            let mut s = "OLE: ".to_owned();
            s.append(e.as_str());
            s.append("; fallback: ");
            s.append(fallback_error.as_str());
            s
        },
        None => fallback_error,
    }
}

/// An upper bound on the number of reports a capture still waits for.
pub open spec fn remaining_reports(phase: SequencePhase) -> int {
    match phase {
        SequencePhase::WatchUserCopy { tick } => 200 - tick,
        SequencePhase::CheckKeyboard => 160,
        SequencePhase::SendCopy => 159,
        SequencePhase::Poll { polls } => 150 - polls,
        SequencePhase::Stabilize { rounds, .. } => 90 - rounds,
        SequencePhase::ReadText { attempts } => 60 - attempts,
        SequencePhase::FinalSequence => 10,
        SequencePhase::Done => 0,
    }
}

/// A capture always finishes: every awaited report lowers the bound on the
/// reports still awaited (at most 200 from the start), keeps the capture well
/// formed, and the step is `Finish` exactly when the capture is over.
pub proof fn lemma_capture_finishes(c: SequenceCaptureView, report: SequenceReportView)
    requires
        c.wf(),
        c.expects(report),
    ensures
        c.next(report).0.wf(),
        0 <= remaining_reports(c.next(report).0.phase) < remaining_reports(c.phase),
        c.next(report).1 is Finish <==> c.next(report).0.phase is Done,
{
}

/// The capture only undoes its own synthetic Ctrl+C, never a copy the user
/// made, and only while the clipboard still holds what that copy produced.
pub proof fn lemma_restores_only_own_copy(c: SequenceCaptureView, report: SequenceReportView)
    requires
        c.wf(),
        c.expects(report),
    ensures
        c.next(report).1 matches SequenceStepView::Finish { restore, .. } && restore ==> {
            &&& c.synthetic_copy
            &&& c.sequence_changed
            &&& report == SequenceReportView::FinalSequence(c.current_sequence)
        },
{
}

/// The synthetic Ctrl+C is sent only after the clipboard stayed unchanged
/// (the user did not copy) and the user was seen not pressing any key.
pub proof fn lemma_copies_only_when_idle(c: SequenceCaptureView, report: SequenceReportView)
    requires
        c.wf(),
        c.expects(report),
    ensures
        c.next(report).1 is SendCopy ==> report == (SequenceReportView::Keyboard { active: false })
            && !c.sequence_changed,
{
}

/// `report` is the kind of report that `step` asks for.
pub open spec fn answers(step: SequenceStepView, report: SequenceReportView) -> bool {
    match step {
        SequenceStepView::WatchUserCopy { .. } => report is UserCopyTick,
        SequenceStepView::CheckKeyboard { .. } => report is Keyboard,
        SequenceStepView::SendCopy => report is CopySent,
        SequenceStepView::ReadSequence { .. } => report is Sequence,
        SequenceStepView::ReadText { .. } => report is Text,
        SequenceStepView::ReadFinalSequence { .. } => report is FinalSequence,
        SequenceStepView::Finish { .. } => false,
    }
}

/// Doing what each step asks is always what the capture expects next: the
/// first step is answered by the report the new capture waits for, and after
/// any awaited report, every report of the kind the next step asks for is
/// awaited, so a driver that answers each step by its kind meets the
/// `requires` of `advance` until the capture finishes.
pub proof fn lemma_steps_ask_for_awaited_reports(c: SequenceCaptureView, report: SequenceReportView, next: SequenceReportView)
    requires
        c.wf(),
        c.expects(report),
        answers(c.next(report).1, next),
    ensures
        c.next(report).0.expects(next),
{
}

/// The first step of a capture asks for the report it waits for.
pub proof fn lemma_first_step_asks_for_awaited_report(c: SequenceCaptureView, report: SequenceReportView)
    requires
        c.phase == (SequencePhase::WatchUserCopy { tick: 0 }),
        answers(SequenceStepView::WatchUserCopy { wait_ms: 0 }, report),
    ensures
        c.expects(report),
{
}

/// Once the clipboard sequence number changed during the capture and a
/// non-blank text was read, the finished capture hands back exactly that
/// text as the selection, whatever the clipboard held before; and a
/// non-blank text read from the clipboard is kept trimmed for the end.
pub proof fn lemma_changed_clipboard_yields_read_text(c: SequenceCaptureView, report: SequenceReportView)
    requires
        c.wf(),
        c.expects(report),
    ensures
        (c.phase == SequencePhase::FinalSequence && c.sequence_changed && c.current_text.len() > 0)
            ==> (c.next(report).1 matches SequenceStepView::Finish { text, .. } && text == c.current_text),
        report matches SequenceReportView::Text(Some(t)) ==> (c.phase is ReadText && trim(t).len() > 0 ==> {
            &&& c.next(report).0.current_text == trim(t)
            &&& c.next(report).0.phase == SequencePhase::FinalSequence
            &&& c.next(report).0.sequence_changed == c.sequence_changed
        }),
{
}

} // verus!
