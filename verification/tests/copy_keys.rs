use luma_translate::copy_keys::{copy_keys_advance, copy_keys_start, CopyKeysPhase, CopyKeysReport, CopyKeysStep};

/// Runs a synthetic copy, answering keyboard checks with `active_at_check`
/// (by check number), key-ups with `released` (by key) and the batch with
/// `batch`. Returns the outcome, the keys released with their extended flag,
/// and whether the batch was sent.
fn drive(
    active_at_check: &dyn Fn(usize) -> bool,
    released: &dyn Fn(u16) -> u32,
    batch: u32,
) -> (Result<(), String>, Vec<(u16, bool)>, bool) {
    let (mut phase, mut step) = copy_keys_start();
    let mut checks = 0;
    let mut keys = Vec::new();
    let mut batch_sent = false;
    loop {
        let report = match step {
            CopyKeysStep::CheckKeyboard => {
                let active = active_at_check(checks);
                checks += 1;
                CopyKeysReport::Keyboard { active }
            }
            CopyKeysStep::ReleaseModifier { key, extended } => {
                keys.push((key, extended));
                CopyKeysReport::Delivered(released(key))
            }
            CopyKeysStep::SendCopyBatch => {
                batch_sent = true;
                CopyKeysReport::Delivered(batch)
            }
            CopyKeysStep::Finish(result) => {
                assert_eq!(phase, CopyKeysPhase::Done);
                return (result, keys, batch_sent);
            }
        };
        step = copy_keys_advance(&mut phase, report);
    }
}

#[test]
fn idle_keyboard_releases_every_modifier_then_copies() {
    let (result, keys, batch_sent) = drive(&|_| false, &|_| 1, 4);
    assert_eq!(result, Ok(()));
    assert!(batch_sent);
    assert_eq!(
        keys,
        vec![
            (0x11, false),
            (0xA2, false),
            (0xA3, true),
            (0x12, false),
            (0xA4, false),
            (0xA5, true),
            (0x5B, false),
            (0x5C, false),
            (0x10, false),
            (0xA0, false),
            (0xA1, false),
        ]
    );
}

#[test]
fn keyboard_activity_before_first_release_cancels() {
    let (result, keys, batch_sent) = drive(&|_| true, &|_| 1, 4);
    assert_eq!(result, Err("physical keyboard input became active".to_string()));
    assert!(keys.is_empty());
    assert!(!batch_sent);
}

#[test]
fn keyboard_activity_midway_cancels_before_batch() {
    let (result, keys, batch_sent) = drive(&|check| check == 4, &|_| 1, 4);
    assert_eq!(result, Err("physical keyboard input became active".to_string()));
    assert_eq!(keys.len(), 4);
    assert!(!batch_sent);
}

#[test]
fn keyboard_activity_after_last_release_cancels() {
    let (result, keys, batch_sent) = drive(&|check| check == 11, &|_| 1, 4);
    assert_eq!(result, Err("physical keyboard input became active".to_string()));
    assert_eq!(keys.len(), 11);
    assert!(!batch_sent);
}

#[test]
fn undelivered_key_up_names_the_modifier() {
    let (result, keys, batch_sent) = drive(&|_| false, &|_| 0, 4);
    assert_eq!(result, Err("SendInput could not release modifier 17".to_string()));
    assert_eq!(keys, vec![(0x11, false)]);
    assert!(!batch_sent);

    let (result, keys, _) = drive(&|_| false, &|key| if key == 0xA3 { 2 } else { 1 }, 4);
    assert_eq!(result, Err("SendInput could not release modifier 163".to_string()));
    assert_eq!(keys.len(), 3);
}

#[test]
fn short_batch_reports_delivered_count() {
    let (result, _, batch_sent) = drive(&|_| false, &|_| 1, 3);
    assert!(batch_sent);
    assert_eq!(result, Err("SendInput only delivered 3/4 keyboard events".to_string()));

    let (result, _, _) = drive(&|_| false, &|_| 1, 0);
    assert_eq!(result, Err("SendInput only delivered 0/4 keyboard events".to_string()));
}
