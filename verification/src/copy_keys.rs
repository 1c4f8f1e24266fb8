use vstd::prelude::*;
use crate::text::{append_decimal, decimal};

verus! {

/// How many modifier keys are released before the synthetic Ctrl+C.
pub const MODIFIER_COUNT: u32 = 11;

/// How many key events the synthetic Ctrl+C sends in one batch: Ctrl down,
/// C down, C up, Ctrl up.
pub const COPY_BATCH_EVENTS: u32 = 4;

/// The virtual-key code of the modifier released at `index`: Ctrl, left and
/// right Ctrl, Alt, left and right Alt, left and right Windows, Shift, left
/// and right Shift.
pub open spec fn released_modifier(index: int) -> u16 {
    if index == 0 { 0x11 }
    else if index == 1 { 0xA2 }
    else if index == 2 { 0xA3 }
    else if index == 3 { 0x12 }
    else if index == 4 { 0xA4 }
    else if index == 5 { 0xA5 }
    else if index == 6 { 0x5B }
    else if index == 7 { 0x5C }
    else if index == 8 { 0x10 }
    else if index == 9 { 0xA0 }
    else { 0xA1 }
}

/// Right Ctrl and right Alt are sent as extended keys.
pub open spec fn is_extended_key(key: u16) -> bool {
    key == 0xA3 || key == 0xA5
}

/// The error when the user's own keyboard input cancels the synthetic copy.
pub open spec fn keyboard_active_message() -> Seq<char> {
    "physical keyboard input became active"@
}

/// The error when the key-up of modifier `key` was not delivered.
pub open spec fn release_failure_message(key: u16) -> Seq<char> {
    "SendInput could not release modifier "@ + decimal(key as nat)
}

/// The error when the Ctrl+C batch delivered only `sent` of its events.
pub open spec fn batch_failure_message(sent: u32) -> Seq<char> {
    "SendInput only delivered "@ + decimal(sent as nat) + "/4 keyboard events"@
}

/// Where a synthetic Ctrl+C stands, and which report it waits for.
#[derive(Clone, Copy, Debug, PartialEq, Eq, Structural)]
pub enum CopyKeysPhase {
    /// Waiting to learn whether the user presses keys, before releasing the
    /// modifier at `index`.
    CheckBeforeRelease { index: u32 },
    /// Waiting for how many events the key-up of the modifier at `index`
    /// delivered.
    Release { index: u32 },
    /// Waiting to learn whether the user presses keys, before the batch.
    CheckBeforeBatch,
    /// Waiting for how many events the Ctrl+C batch delivered.
    Batch,
    /// The synthetic copy is over.
    Done,
}

/// A report from the system to a synthetic Ctrl+C.
#[derive(Clone, Copy, Debug, PartialEq, Eq, Structural)]
pub enum CopyKeysReport {
    /// Whether the user is pressing any of the watched keys.
    Keyboard { active: bool },
    /// How many key events the last send delivered.
    Delivered(u32),
}

/// What the application does next in a synthetic Ctrl+C.
#[derive(Debug)]
pub enum CopyKeysStep {
    /// Report whether the user is pressing keys.
    CheckKeyboard,
    /// Send the key-up of `key` alone (as an extended key when `extended`)
    /// and report how many events were delivered.
    ReleaseModifier { key: u16, extended: bool },
    /// Send Ctrl down, C down, C up, Ctrl up in one batch and report how many
    /// events were delivered.
    SendCopyBatch,
    /// The synthetic copy is over, with this outcome.
    Finish(Result<(), String>),
}

/// The contents of a step.
pub enum CopyKeysStepView {
    CheckKeyboard,
    ReleaseModifier { key: u16, extended: bool },
    SendCopyBatch,
    Finish(Result<(), Seq<char>>),
}

impl View for CopyKeysStep {
    type V = CopyKeysStepView;

    open spec fn view(&self) -> CopyKeysStepView {
        match self {
            CopyKeysStep::CheckKeyboard => CopyKeysStepView::CheckKeyboard,
            CopyKeysStep::ReleaseModifier { key, extended } => CopyKeysStepView::ReleaseModifier {
                key: *key,
                extended: *extended,
            },
            CopyKeysStep::SendCopyBatch => CopyKeysStepView::SendCopyBatch,
            CopyKeysStep::Finish(r) => CopyKeysStepView::Finish(
                match r {
                    Ok(()) => Ok(()),
                    Err(e) => Err(e@),
                },
            ),
        }
    }
}

/// The synthetic copy is cancelled because the user pressed keys.
pub open spec fn cancelled_by_keyboard() -> (CopyKeysPhase, CopyKeysStepView) {
    (CopyKeysPhase::Done, CopyKeysStepView::Finish(Err(keyboard_active_message())))
}

/// The step that releases the modifier at `index`.
pub open spec fn release_step(index: int) -> CopyKeysStepView {
    CopyKeysStepView::ReleaseModifier {
        key: released_modifier(index),
        extended: is_extended_key(released_modifier(index)),
    }
}

impl CopyKeysPhase {
    /// The modifier index stays within the list.
    pub open spec fn wf(self) -> bool {
        match self {
            CopyKeysPhase::CheckBeforeRelease { index } => index < MODIFIER_COUNT,
            CopyKeysPhase::Release { index } => index < MODIFIER_COUNT,
            _ => true,
        }
    }

    /// The report matches what the synthetic copy waits for.
    pub open spec fn expects(self, report: CopyKeysReport) -> bool {
        match self {
            CopyKeysPhase::CheckBeforeRelease { .. } => report is Keyboard,
            CopyKeysPhase::CheckBeforeBatch => report is Keyboard,
            CopyKeysPhase::Release { .. } => report is Delivered,
            CopyKeysPhase::Batch => report is Delivered,
            CopyKeysPhase::Done => false,
        }
    }

    /// The phase and the next step after `report`: any keyboard activity
    /// cancels; each modifier is released alone and must deliver its one
    /// event; after the last, one more check, then the batch, which succeeds
    /// when all four events were delivered.
    pub open spec fn next(self, report: CopyKeysReport) -> (CopyKeysPhase, CopyKeysStepView) {
        match (self, report) {
            (CopyKeysPhase::CheckBeforeRelease { index }, CopyKeysReport::Keyboard { active }) => if active {
                cancelled_by_keyboard()
            } else {
                (CopyKeysPhase::Release { index }, release_step(index as int))
            },
            (CopyKeysPhase::Release { index }, CopyKeysReport::Delivered(sent)) => if sent != 1 {
                (
                    CopyKeysPhase::Done,
                    CopyKeysStepView::Finish(Err(release_failure_message(released_modifier(index as int)))),
                )
            } else if index + 1 < MODIFIER_COUNT {
                (CopyKeysPhase::CheckBeforeRelease { index: (index + 1) as u32 }, CopyKeysStepView::CheckKeyboard)
            } else {
                (CopyKeysPhase::CheckBeforeBatch, CopyKeysStepView::CheckKeyboard)
            },
            (CopyKeysPhase::CheckBeforeBatch, CopyKeysReport::Keyboard { active }) => if active {
                cancelled_by_keyboard()
            } else {
                (CopyKeysPhase::Batch, CopyKeysStepView::SendCopyBatch)
            },
            (CopyKeysPhase::Batch, CopyKeysReport::Delivered(sent)) => if sent == COPY_BATCH_EVENTS {
                (CopyKeysPhase::Done, CopyKeysStepView::Finish(Ok(())))
            } else {
                (CopyKeysPhase::Done, CopyKeysStepView::Finish(Err(batch_failure_message(sent))))
            },
            _ => (self, CopyKeysStepView::Finish(Err(Seq::empty()))),
        }
    }
}

/// The virtual-key code of the modifier released at `index`.
fn modifier_key(index: u32) -> (key: u16)
    requires
        index < MODIFIER_COUNT,
    ensures
        key == released_modifier(index as int),
{
    if index == 0 { 0x11 }
    else if index == 1 { 0xA2 }
    else if index == 2 { 0xA3 }
    else if index == 3 { 0x12 }
    else if index == 4 { 0xA4 }
    else if index == 5 { 0xA5 }
    else if index == 6 { 0x5B }
    else if index == 7 { 0x5C }
    else if index == 8 { 0x10 }
    else if index == 9 { 0xA0 }
    else { 0xA1 }
}

/// The error text for a modifier whose key-up was not delivered.
fn release_failure(key: u16) -> (res: String)
    ensures
        res@ == release_failure_message(key),
{
    let mut s = "SendInput could not release modifier ".to_owned();
    append_decimal(&mut s, key as u64);
    s
}

/// The error text for a batch that delivered only `sent` events.
fn batch_failure(sent: u32) -> (res: String)
    ensures
        res@ == batch_failure_message(sent),
{
    let mut s = "SendInput only delivered ".to_owned();
    append_decimal(&mut s, sent as u64);
    s.append("/4 keyboard events");
    s
}

/// Starts a synthetic Ctrl+C: the first step checks the keyboard before the
/// first modifier is released.
pub fn copy_keys_start() -> (res: (CopyKeysPhase, CopyKeysStep))
    ensures
        res.0 == (CopyKeysPhase::CheckBeforeRelease { index: 0 }),
        res.1@ == CopyKeysStepView::CheckKeyboard,
{
    (CopyKeysPhase::CheckBeforeRelease { index: 0 }, CopyKeysStep::CheckKeyboard)
}

/// Takes the report the synthetic copy waited for and returns the next step
/// (see `CopyKeysPhase::next`).
pub fn copy_keys_advance(phase: &mut CopyKeysPhase, report: CopyKeysReport) -> (step: CopyKeysStep)
    requires
        old(phase).wf(),
        old(phase).expects(report),
    ensures
        final(phase).wf(),
        (*final(phase), step@) == old(phase).next(report),
{
    match (*phase, report) {
        (CopyKeysPhase::CheckBeforeRelease { index }, CopyKeysReport::Keyboard { active }) => {
            if active {
                *phase = CopyKeysPhase::Done;
                CopyKeysStep::Finish(Err("physical keyboard input became active".to_owned()))
            } else {
                let key = modifier_key(index);
                *phase = CopyKeysPhase::Release { index };
                CopyKeysStep::ReleaseModifier { key, extended: key == 0xA3 || key == 0xA5 }
            }
        },
        (CopyKeysPhase::Release { index }, CopyKeysReport::Delivered(sent)) => {
            if sent != 1 {
                let key = modifier_key(index);
                *phase = CopyKeysPhase::Done;
                CopyKeysStep::Finish(Err(release_failure(key)))
            } else if index + 1 < MODIFIER_COUNT {
                *phase = CopyKeysPhase::CheckBeforeRelease { index: index + 1 };
                CopyKeysStep::CheckKeyboard
            } else {
                *phase = CopyKeysPhase::CheckBeforeBatch;
                CopyKeysStep::CheckKeyboard
            }
        },
        (CopyKeysPhase::CheckBeforeBatch, CopyKeysReport::Keyboard { active }) => {
            if active {
                *phase = CopyKeysPhase::Done;
                CopyKeysStep::Finish(Err("physical keyboard input became active".to_owned()))
            } else {
                *phase = CopyKeysPhase::Batch;
                CopyKeysStep::SendCopyBatch
            }
        },
        (CopyKeysPhase::Batch, CopyKeysReport::Delivered(sent)) => {
            *phase = CopyKeysPhase::Done;
            if sent == COPY_BATCH_EVENTS {
                CopyKeysStep::Finish(Ok(()))
            } else {
                CopyKeysStep::Finish(Err(batch_failure(sent)))
            }
        },
        _ => CopyKeysStep::Finish(Err(String::new())),
    }
}

/// The synthetic copy and its last step after its steps were answered with
/// `reports`, in order, from the start.
pub open spec fn copy_keys_run(reports: Seq<CopyKeysReport>) -> (CopyKeysPhase, CopyKeysStepView)
    decreases reports.len(),
{
    if reports.len() == 0 {
        (CopyKeysPhase::CheckBeforeRelease { index: 0 }, CopyKeysStepView::CheckKeyboard)
    } else {
        copy_keys_run(reports.drop_last()).0.next(reports.last())
    }
}

/// Each of `reports` was awaited when it came.
pub open spec fn awaited_run(reports: Seq<CopyKeysReport>) -> bool
    decreases reports.len(),
{
    reports.len() == 0 || (awaited_run(reports.drop_last()) && copy_keys_run(reports.drop_last()).0.expects(
        reports.last(),
    ))
}

/// The report at position `i` of a run in which the user pressed no key and
/// every key-up was delivered: checks and releases alternate.
pub open spec fn idle_report(i: int) -> CopyKeysReport {
    if i % 2 == 0 {
        CopyKeysReport::Keyboard { active: false }
    } else {
        CopyKeysReport::Delivered(1)
    }
}

/// The phase after `n` idle reports.
pub open spec fn phase_after_idle(n: int) -> CopyKeysPhase {
    if n % 2 == 0 {
        if n / 2 < MODIFIER_COUNT {
            CopyKeysPhase::CheckBeforeRelease { index: (n / 2) as u32 }
        } else {
            CopyKeysPhase::CheckBeforeBatch
        }
    } else {
        if n / 2 < MODIFIER_COUNT {
            CopyKeysPhase::Release { index: (n / 2) as u32 }
        } else {
            CopyKeysPhase::Batch
        }
    }
}

/// A run that has not finished was idle so far: it is at most 23 reports
/// long, they alternate between idle checks and single deliveries, and the
/// phase is the one after that many idle reports.
proof fn lemma_unfinished_run_is_idle(reports: Seq<CopyKeysReport>)
    requires
        awaited_run(reports),
        !(copy_keys_run(reports).0 is Done),
    ensures
        reports.len() <= 2 * MODIFIER_COUNT + 1,
        copy_keys_run(reports).0 == phase_after_idle(reports.len() as int),
        forall|i: int| 0 <= i < reports.len() ==> reports[i] == idle_report(i),
    decreases reports.len(),
{
    if reports.len() > 0 {
        let prefix = reports.drop_last();
        lemma_unfinished_run_is_idle(prefix);
        let n = prefix.len() as int;
        assert(reports.last() == idle_report(n));
        assert forall|i: int| 0 <= i < reports.len() implies reports[i] == idle_report(i) by {
            if i < n {
                assert(reports[i] == prefix[i]);
            }
        }
    }
}

/// A run of idle reports is awaited throughout and reaches the phase after
/// that many idle reports.
proof fn lemma_idle_run(reports: Seq<CopyKeysReport>)
    requires
        reports.len() <= 2 * MODIFIER_COUNT + 1,
        forall|i: int| 0 <= i < reports.len() ==> reports[i] == idle_report(i),
    ensures
        awaited_run(reports),
        copy_keys_run(reports).0 == phase_after_idle(reports.len() as int),
    decreases reports.len(),
{
    if reports.len() > 0 {
        let prefix = reports.drop_last();
        assert forall|i: int| 0 <= i < prefix.len() implies prefix[i] == idle_report(i) by {
            assert(prefix[i] == reports[i]);
        }
        lemma_idle_run(prefix);
        assert(reports.last() == idle_report(prefix.len() as int));
    }
}

/// Keyboard activity seen at any check cancels the synthetic copy with
/// "physical keyboard input became active", and nothing follows: no report
/// is awaited after it, so no Ctrl+C batch is ever sent.
pub proof fn lemma_keyboard_activity_cancels_copy(phase: CopyKeysPhase, report: CopyKeysReport)
    requires
        phase.wf(),
        phase.expects(report),
        report == (CopyKeysReport::Keyboard { active: true }),
    ensures
        phase.next(report) == cancelled_by_keyboard(),
        forall|r: CopyKeysReport| !phase.next(report).0.expects(r),
{
}

/// The Ctrl+C batch is asked for only after 12 keyboard checks that found
/// the user idle and 11 key-ups that each delivered one event, alternating
/// and in that order.
pub proof fn lemma_batch_follows_idle_releases(reports: Seq<CopyKeysReport>)
    requires
        awaited_run(reports),
        copy_keys_run(reports).1 is SendCopyBatch,
    ensures
        reports.len() == 2 * MODIFIER_COUNT + 1,
        forall|i: int| 0 <= i < reports.len() ==> reports[i] == idle_report(i),
{
    assert(reports.len() > 0);
    assert(copy_keys_run(reports).0 == CopyKeysPhase::Batch);
    lemma_unfinished_run_is_idle(reports);
}

/// When the user presses no key and every key-up is delivered, the Ctrl+C
/// batch is asked for after those 23 reports.
pub proof fn lemma_idle_run_sends_batch(reports: Seq<CopyKeysReport>)
    requires
        reports.len() == 2 * MODIFIER_COUNT + 1,
        forall|i: int| 0 <= i < reports.len() ==> reports[i] == idle_report(i),
    ensures
        awaited_run(reports),
        copy_keys_run(reports).1 == CopyKeysStepView::SendCopyBatch,
{
    let prefix = reports.drop_last();
    assert forall|i: int| 0 <= i < prefix.len() implies prefix[i] == idle_report(i) by {
        assert(prefix[i] == reports[i]);
    }
    lemma_idle_run(prefix);
    lemma_idle_run(reports);
    assert(reports.last() == idle_report(2 * MODIFIER_COUNT));
}

/// The synthetic copy succeeds exactly when the batch delivered all four
/// events; every other finish is an error.
pub proof fn lemma_success_exactly_on_full_batch(phase: CopyKeysPhase, report: CopyKeysReport)
    requires
        phase.wf(),
        phase.expects(report),
    ensures
        (phase.next(report).1 == CopyKeysStepView::Finish(Ok(()))) <==> (phase == CopyKeysPhase::Batch
            && report == CopyKeysReport::Delivered(COPY_BATCH_EVENTS)),
{
}

/// An upper bound on the reports a synthetic copy still waits for.
pub open spec fn remaining_key_reports(phase: CopyKeysPhase) -> int {
    match phase {
        CopyKeysPhase::CheckBeforeRelease { index } => 2 * MODIFIER_COUNT + 2 - 2 * index,
        CopyKeysPhase::Release { index } => 2 * MODIFIER_COUNT + 1 - 2 * index,
        CopyKeysPhase::CheckBeforeBatch => 2,
        CopyKeysPhase::Batch => 1,
        CopyKeysPhase::Done => 0,
    }
}

/// `report` is the kind of report that `step` asks for.
pub open spec fn answers_key_step(step: CopyKeysStepView, report: CopyKeysReport) -> bool {
    match step {
        CopyKeysStepView::CheckKeyboard => report is Keyboard,
        CopyKeysStepView::ReleaseModifier { .. } => report is Delivered,
        CopyKeysStepView::SendCopyBatch => report is Delivered,
        CopyKeysStepView::Finish(_) => false,
    }
}

/// A synthetic copy always finishes, and a driver that answers each step by
/// its kind meets the `requires` of `copy_keys_advance`: every awaited
/// report lowers the bound on the reports still awaited, the step is
/// `Finish` exactly when the copy is over, and any report of the kind the
/// next step asks for is awaited. The first step is answered the same way.
pub proof fn lemma_copy_keys_steps_are_answerable(phase: CopyKeysPhase, report: CopyKeysReport, next: CopyKeysReport)
    requires
        phase.wf(),
        phase.expects(report),
    ensures
        phase.next(report).0.wf(),
        0 <= remaining_key_reports(phase.next(report).0) < remaining_key_reports(phase),
        phase.next(report).1 is Finish <==> phase.next(report).0 is Done,
        answers_key_step(phase.next(report).1, next) ==> phase.next(report).0.expects(next),
        answers_key_step(CopyKeysStepView::CheckKeyboard, next) ==> (CopyKeysPhase::CheckBeforeRelease {
            index: 0,
        }).expects(next),
{
}

} // verus!
