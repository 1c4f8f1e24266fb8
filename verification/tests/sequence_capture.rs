use luma_translate::windows_capture::{
    fallback_restore, original_clipboard_text, restore_failure, ClipboardFallback, FallbackRestore,
    SequenceCapture, SequencePhase, SequenceReport, SequenceStep,
};

fn run(capture: &mut SequenceCapture, mut step: SequenceStep, reports: &mut dyn FnMut(&SequenceStep) -> SequenceReport) -> (bool, String, usize) {
    let mut count = 0;
    loop {
        if let SequenceStep::Finish { restore, text } = step {
            return (restore, text, count);
        }
        let r = reports(&step);
        count += 1;
        step = capture.advance(r);
    }
}

#[test]
fn synthetic_copy_is_read_and_undone() {
    let (mut c, step) = SequenceCapture::start("before".to_string(), 10);
    let mut seq_reads = 0;
    let (restore, text, _) = run(&mut c, step, &mut |s| match s {
        SequenceStep::WatchUserCopy { .. } => SequenceReport::UserCopyTick { sequence: 10, keyboard_active: false },
        SequenceStep::CheckKeyboard { .. } => SequenceReport::Keyboard { active: false },
        SequenceStep::SendCopy => SequenceReport::CopySent { delivered: true },
        SequenceStep::ReadSequence { .. } => {
            seq_reads += 1;
            SequenceReport::Sequence(if seq_reads >= 3 { 11 } else { 10 })
        }
        SequenceStep::ReadText { .. } => SequenceReport::Text(Some("  selected words ".to_string())),
        SequenceStep::ReadFinalSequence { .. } => SequenceReport::FinalSequence(11),
        SequenceStep::Finish { .. } => unreachable!(),
    });
    assert!(restore);
    assert_eq!(text, "selected words");
    assert_eq!(c.phase, SequencePhase::Done);
}

#[test]
fn user_copy_wins_and_is_never_undone() {
    let (mut c, step) = SequenceCapture::start("before".to_string(), 10);
    let (restore, text, _) = run(&mut c, step, &mut |s| match s {
        SequenceStep::WatchUserCopy { .. } => SequenceReport::UserCopyTick { sequence: 12, keyboard_active: true },
        SequenceStep::ReadSequence { .. } => SequenceReport::Sequence(12),
        SequenceStep::ReadText { .. } => SequenceReport::Text(Some("mine".to_string())),
        SequenceStep::ReadFinalSequence { .. } => SequenceReport::FinalSequence(12),
        _ => panic!("no synthetic copy expected"),
    });
    assert!(!restore);
    assert_eq!(text, "mine");
}

#[test]
fn typing_user_blocks_the_synthetic_copy() {
    let (mut c, step) = SequenceCapture::start(String::new(), 1);
    let (restore, text, n) = run(&mut c, step, &mut |s| match s {
        SequenceStep::WatchUserCopy { .. } => SequenceReport::UserCopyTick { sequence: 1, keyboard_active: true },
        SequenceStep::CheckKeyboard { .. } => SequenceReport::Keyboard { active: true },
        _ => panic!("no copy while typing"),
    });
    assert!(!restore);
    assert_eq!(text, "");
    assert_eq!(n, 31);
}

#[test]
fn unchanged_clipboard_gives_no_selection() {
    let (mut c, step) = SequenceCapture::start("same".to_string(), 5);
    let (restore, text, n) = run(&mut c, step, &mut |s| match s {
        SequenceStep::WatchUserCopy { .. } => SequenceReport::UserCopyTick { sequence: 5, keyboard_active: false },
        SequenceStep::CheckKeyboard { .. } => SequenceReport::Keyboard { active: false },
        SequenceStep::SendCopy => SequenceReport::CopySent { delivered: true },
        SequenceStep::ReadSequence { .. } => SequenceReport::Sequence(5),
        SequenceStep::ReadText { .. } => SequenceReport::Text(Some(" same ".to_string())),
        SequenceStep::ReadFinalSequence { .. } => SequenceReport::FinalSequence(5),
        SequenceStep::Finish { .. } => unreachable!(),
    });
    assert!(!restore);
    assert_eq!(text, "");
    assert!(n <= 200);
}

#[test]
fn newer_clipboard_content_is_kept() {
    let (mut c, step) = SequenceCapture::start("x".to_string(), 1);
    let (restore, text, _) = run(&mut c, step, &mut |s| match s {
        SequenceStep::WatchUserCopy { .. } => SequenceReport::UserCopyTick { sequence: 1, keyboard_active: false },
        SequenceStep::CheckKeyboard { .. } => SequenceReport::Keyboard { active: false },
        SequenceStep::SendCopy => SequenceReport::CopySent { delivered: true },
        SequenceStep::ReadSequence { .. } => SequenceReport::Sequence(2),
        SequenceStep::ReadText { .. } => SequenceReport::Text(Some("copied".to_string())),
        SequenceStep::ReadFinalSequence { .. } => SequenceReport::FinalSequence(3),
        SequenceStep::Finish { .. } => unreachable!(),
    });
    assert!(!restore);
    assert_eq!(text, "copied");
}

#[test]
fn failed_synthetic_copy_gives_up() {
    let (mut c, step) = SequenceCapture::start("x".to_string(), 1);
    let (restore, text, _) = run(&mut c, step, &mut |s| match s {
        SequenceStep::WatchUserCopy { .. } => SequenceReport::UserCopyTick { sequence: 1, keyboard_active: false },
        SequenceStep::CheckKeyboard { .. } => SequenceReport::Keyboard { active: false },
        SequenceStep::SendCopy => SequenceReport::CopySent { delivered: false },
        _ => panic!("must stop"),
    });
    assert!(!restore);
    assert_eq!(text, "");
}

#[test]
fn fallback_restore_follows_what_was_saved() {
    assert_eq!(original_clipboard_text(&ClipboardFallback::Text("t".to_string())), "t");
    assert_eq!(original_clipboard_text(&ClipboardFallback::Empty), "");
    assert_eq!(original_clipboard_text(&ClipboardFallback::Unavailable), "");
    assert!(matches!(fallback_restore(ClipboardFallback::Text("t".to_string()), None), FallbackRestore::SetText(t) if t == "t"));
    assert!(matches!(fallback_restore(ClipboardFallback::Empty, Some("x".to_string())), FallbackRestore::Clear));
    assert!(matches!(fallback_restore(ClipboardFallback::Unavailable, Some("busy".to_string())), FallbackRestore::Fail(m) if m == "busy"));
    assert!(matches!(fallback_restore(ClipboardFallback::Unavailable, None), FallbackRestore::Fail(m) if m == "original clipboard format could not be captured"));
    assert_eq!(restore_failure(Some("a".to_string()), "b".to_string()), "OLE: a; fallback: b");
    assert_eq!(restore_failure(None, "b".to_string()), "b");
}
