use luma_translate::capture::{
    is_acceptable_selection, prefer_clipboard_capture, read_selected_text, should_restore_clipboard,
    CaptureAction, CaptureEvent, ClipboardCapture,
};
use luma_translate::geometry::is_meaningful_drag;
use luma_translate::watcher::{
    classify_hook_message, is_latest_generation, HookEvent, physical_cursor_position, MouseEvent, NativeDrag, SelectionWatcher,
    WatcherAction,
};

#[test]
fn plain_click_and_pointer_jitter_are_not_selections() {
    assert!(!is_meaningful_drag(100, 100, 100, 100));
    assert!(!is_meaningful_drag(100, 100, 102, 102));
}

#[test]
fn mouse_drag_is_a_selection_candidate() {
    assert!(is_meaningful_drag(100, 100, 104, 100));
    assert!(is_meaningful_drag(100, 100, 90, 125));
}

#[test]
fn restores_only_unchanged_synthetic_clipboard_content() {
    assert!(should_restore_clipboard(true, true, 42, 42));
    assert!(!should_restore_clipboard(false, true, 42, 42));
    assert!(!should_restore_clipboard(true, false, 42, 42));
    assert!(!should_restore_clipboard(true, true, 42, 43));
}

#[test]
fn drag_threshold_is_four_pixels() {
    assert!(!is_meaningful_drag(0, 0, 3, 0));
    assert!(is_meaningful_drag(0, 0, 0, -4));
    assert!(!is_meaningful_drag(-5, -5, -3, -3));
    assert!(is_meaningful_drag(i32::MIN, 0, i32::MIN + 4, 0));
}

#[test]
fn native_drag_tracks_the_farthest_point() {
    let mut drag = NativeDrag::new(10, 10, 7);
    assert!(!drag.is_meaningful());
    drag.observe(13, 10);
    assert_eq!(drag.max_distance_squared, 9);
    assert!(!drag.is_meaningful());
    drag.observe(10, 30);
    assert_eq!((drag.farthest_x, drag.farthest_y), (10, 30));
    assert_eq!(drag.max_distance_squared, 400);
    drag.observe(11, 11);
    assert_eq!((drag.farthest_x, drag.farthest_y), (10, 30));
    assert_eq!(drag.move_count, 3);
    assert_eq!(drag.generation, 7);
    assert!(drag.is_meaningful());
}

#[test]
fn generations_and_cursor_fallback() {
    assert!(is_latest_generation(5, 5));
    assert!(!is_latest_generation(6, 5));
    assert_eq!(physical_cursor_position((3, -4)), (3, -4));
}

#[test]
fn watcher_captures_a_drag_at_the_release_point() {
    let mut w = SelectionWatcher::new();
    let a = w.handle(MouseEvent::LeftDown { x: 100, y: 100, in_own_window: false });
    assert!(matches!(a, WatcherAction::Dismiss { hide_panel: true }));
    assert_eq!(w.generation, 1);
    let a = w.handle(MouseEvent::Move { x: 150, y: 100 });
    assert!(matches!(a, WatcherAction::Ignore));
    match w.handle(MouseEvent::LeftUp { x: 160, y: 102, in_own_window: false }) {
        WatcherAction::Capture { start_x, start_y, end_x, end_y, generation } => {
            assert_eq!((start_x, start_y, end_x, end_y, generation), (100, 100, 160, 102, 1));
        }
        _ => panic!("expected a capture"),
    }
    assert!(w.drag.is_none());
}

#[test]
fn watcher_ends_a_returning_drag_at_its_farthest_point() {
    let mut w = SelectionWatcher::new();
    w.handle(MouseEvent::LeftDown { x: 100, y: 100, in_own_window: false });
    w.handle(MouseEvent::Move { x: 140, y: 100 });
    match w.handle(MouseEvent::LeftUp { x: 101, y: 100, in_own_window: false }) {
        WatcherAction::Capture { end_x, end_y, .. } => assert_eq!((end_x, end_y), (140, 100)),
        _ => panic!("expected a capture"),
    }
}

#[test]
fn watcher_ignores_clicks_and_own_windows() {
    let mut w = SelectionWatcher::new();
    w.handle(MouseEvent::LeftDown { x: 100, y: 100, in_own_window: false });
    assert!(matches!(
        w.handle(MouseEvent::LeftUp { x: 101, y: 101, in_own_window: false }),
        WatcherAction::Ignore
    ));
    w.handle(MouseEvent::LeftDown { x: 100, y: 100, in_own_window: false });
    assert!(matches!(
        w.handle(MouseEvent::LeftUp { x: 300, y: 300, in_own_window: true }),
        WatcherAction::Ignore
    ));
    let before = w.generation;
    assert!(matches!(
        w.handle(MouseEvent::LeftDown { x: 1, y: 1, in_own_window: true }),
        WatcherAction::Ignore
    ));
    assert_eq!(w.generation, before);
    assert!(matches!(
        w.handle(MouseEvent::LeftUp { x: 300, y: 300, in_own_window: false }),
        WatcherAction::Ignore
    ));
}

#[test]
fn other_buttons_dismiss_without_hiding_the_panel() {
    let mut w = SelectionWatcher::new();
    w.handle(MouseEvent::LeftDown { x: 0, y: 0, in_own_window: false });
    let a = w.handle(MouseEvent::OtherDown { in_own_window: false });
    assert!(matches!(a, WatcherAction::Dismiss { hide_panel: false }));
    assert_eq!(w.generation, 2);
    assert!(w.drag.is_none());
    assert!(w.can_handle(&MouseEvent::Move { x: 5, y: 5 }));
}

#[test]
fn a_new_press_makes_the_last_capture_stale() {
    let mut w = SelectionWatcher::new();
    w.handle(MouseEvent::LeftDown { x: 0, y: 0, in_own_window: false });
    let g = match w.handle(MouseEvent::LeftUp { x: 50, y: 0, in_own_window: false }) {
        WatcherAction::Capture { generation, .. } => generation,
        _ => panic!("expected a capture"),
    };
    assert!(is_latest_generation(w.generation, g));
    w.handle(MouseEvent::OtherDown { in_own_window: false });
    assert!(!is_latest_generation(w.generation, g));
}

#[test]
fn clipboard_first_applications() {
    assert!(prefer_clipboard_capture("class=Chrome_WidgetWin_1 title=ChatGPT"));
    assert!(prefer_clipboard_capture("class=MozillaWindowClass title=Inbox"));
    assert!(prefer_clipboard_capture("class=WeChatMainWndForPC title=x"));
    assert!(prefer_clipboard_capture("title=微信"));
    assert!(prefer_clipboard_capture("CODEX"));
    assert!(!prefer_clipboard_capture("class=Notepad title=notes.txt"));
    assert!(!prefer_clipboard_capture(""));
}

#[test]
fn selections_are_offered_up_to_twelve_thousand_chars() {
    assert!(!is_acceptable_selection(""));
    assert!(is_acceptable_selection("hello"));
    assert!(is_acceptable_selection(&"字".repeat(12000)));
    assert!(!is_acceptable_selection(&"a".repeat(12001)));
}

#[test]
fn clipboard_capture_without_selection_restores_previous_text() {
    let mut c = ClipboardCapture::new("old".to_string(), "__MARK__".to_string());
    match read_selected_text(&mut c, CaptureEvent::Copied("__MARK__".to_string())) {
        CaptureAction::RestoreAndFinish(Ok(t)) => assert_eq!(t, ""),
        _ => panic!("expected restore with no selection"),
    }
}

#[test]
fn clipboard_capture_reads_trimmed_selection_and_restores() {
    let mut c = ClipboardCapture::new("old".to_string(), "__MARK__".to_string());
    assert!(matches!(
        read_selected_text(&mut c, CaptureEvent::Copied("  picked text \n".to_string())),
        CaptureAction::ReadAgain
    ));
    match read_selected_text(&mut c, CaptureEvent::Reread(Some("  picked text \n".to_string()))) {
        CaptureAction::RestoreAndFinish(Ok(t)) => assert_eq!(t, "picked text"),
        _ => panic!("expected restore"),
    }
}

#[test]
fn clipboard_capture_keeps_newer_user_copy() {
    let mut c = ClipboardCapture::new("old".to_string(), "__MARK__".to_string());
    read_selected_text(&mut c, CaptureEvent::Copied("picked".to_string()));
    match read_selected_text(&mut c, CaptureEvent::Reread(Some("newer".to_string()))) {
        CaptureAction::Finish(Ok(t)) => assert_eq!(t, "picked"),
        _ => panic!("expected finish without restore"),
    }
    let mut c = ClipboardCapture::new("old".to_string(), "__MARK__".to_string());
    read_selected_text(&mut c, CaptureEvent::Copied("picked".to_string()));
    assert!(matches!(
        read_selected_text(&mut c, CaptureEvent::Reread(None)),
        CaptureAction::Finish(Ok(_))
    ));
}

#[test]
fn clipboard_capture_failed_copy_restores_and_fails() {
    let mut c = ClipboardCapture::new("old".to_string(), "__MARK__".to_string());
    match read_selected_text(&mut c, CaptureEvent::CopyFailed("no xdotool".to_string())) {
        CaptureAction::RestoreAndFinish(Err(e)) => assert_eq!(e, "no xdotool"),
        _ => panic!("expected failure"),
    }
}

#[test]
fn hook_reports_moves_only_while_the_left_button_is_down() {
    assert!(matches!(classify_hook_message(0x0200, 0, false, 1, 2), (None, false)));
    assert!(matches!(classify_hook_message(0x0201, 0, false, 1, 2), (Some(HookEvent::LeftDown(1, 2, false)), true)));
    assert!(matches!(classify_hook_message(0x0201, 1, false, 1, 2), (Some(HookEvent::LeftDown(1, 2, true)), true)));
    assert!(matches!(classify_hook_message(0x0200, 1, true, 3, 4), (Some(HookEvent::Move(3, 4)), true)));
    assert!(matches!(classify_hook_message(0x0202, 0, true, 5, 6), (Some(HookEvent::LeftUp(5, 6, false)), false)));
    assert!(matches!(classify_hook_message(0x0202, 3, true, 5, 6), (Some(HookEvent::LeftUp(5, 6, true)), false)));
    assert!(matches!(classify_hook_message(0x0202, 2, true, 5, 6), (Some(HookEvent::LeftUp(5, 6, false)), false)));
    assert!(matches!(classify_hook_message(0x0204, 0, true, 0, 0), (Some(HookEvent::OtherDown), true)));
    assert!(matches!(classify_hook_message(0x0207, 0, false, 0, 0), (Some(HookEvent::OtherDown), false)));
    assert!(matches!(classify_hook_message(0x020B, 0, false, 0, 0), (Some(HookEvent::OtherDown), false)));
    assert!(matches!(classify_hook_message(0x0205, 0, true, 0, 0), (None, true)));
}

#[test]
fn drag_with_jitter_then_far_move_captures_at_first_farthest_point() {
    let mut w = SelectionWatcher::new();
    w.handle(MouseEvent::LeftDown { x: 0, y: 0, in_own_window: false });
    w.handle(MouseEvent::Move { x: 1, y: 1 });
    w.handle(MouseEvent::Move { x: 30, y: 0 });
    w.handle(MouseEvent::Move { x: 0, y: 30 });
    match w.handle(MouseEvent::LeftUp { x: 1, y: 0, in_own_window: false }) {
        WatcherAction::Capture { end_x, end_y, generation, .. } => {
            assert_eq!((end_x, end_y, generation), (30, 0, 1));
        }
        _ => panic!("expected a capture"),
    }
    let mut w = SelectionWatcher::new();
    w.handle(MouseEvent::LeftDown { x: 0, y: 0, in_own_window: false });
    w.handle(MouseEvent::Move { x: 2, y: 2 });
    assert!(matches!(
        w.handle(MouseEvent::LeftUp { x: 1, y: 2, in_own_window: false }),
        WatcherAction::Ignore
    ));
}
