use luma_translate::geometry::{
    clamp_window, decode_screen_point, native_button_contains, placement_in_range, point_in_own_window,
    pointer_anchor, WindowFrame, WorkArea,
};

fn area() -> Option<WorkArea> {
    Some(WorkArea { x: 0, y: 0, width: 1920, height: 1040 })
}

#[test]
fn windows_are_kept_inside_the_work_area() {
    assert!(placement_in_range(440, 320, &area()));
    assert_eq!(clamp_window(100, 100, 440, 320, area()), (100, 100));
    assert_eq!(clamp_window(1900, 1000, 440, 320, area()), (1472, 712));
    assert_eq!(clamp_window(-50, -50, 440, 320, area()), (8, 8));
    assert_eq!(clamp_window(1900, 1000, 440, 320, None), (1900, 1000));
}

#[test]
fn oversized_windows_stick_to_the_top_left_margin() {
    let small = Some(WorkArea { x: 100, y: 50, width: 300, height: 200 });
    assert_eq!(clamp_window(500, 500, 440, 320, small), (108, 58));
}

#[test]
fn clamping_twice_changes_nothing() {
    let once = clamp_window(5000, -3, 42, 42, area());
    assert_eq!(clamp_window(once.0, once.1, 42, 42, area()), once);
}

#[test]
fn own_windows_are_recognised() {
    let frames = vec![WindowFrame { x: 10, y: 10, width: 100, height: 50 }];
    assert!(point_in_own_window(10, 10, &frames, None));
    assert!(point_in_own_window(110, 60, &frames, None));
    assert!(!point_in_own_window(111, 60, &frames, None));
    assert!(point_in_own_window(521, 521, &frames, Some((500, 500))));
    assert!(!point_in_own_window(500, 500, &frames, Some((500, 500))));
}

#[test]
fn native_button_is_round() {
    assert!(native_button_contains(0, 0, 21, 21));
    assert!(native_button_contains(0, 0, 41, 21));
    assert!(!native_button_contains(0, 0, 42, 21));
    assert!(!native_button_contains(0, 0, 0, 0));
}

#[test]
fn anchors_sit_below_right_of_the_pointer() {
    assert_eq!(pointer_anchor(100, -20), (112, -8));
}

#[test]
fn hit_test_points_are_signed_words() {
    assert_eq!(decode_screen_point(0x0020_0010), (16, 32));
    assert_eq!(decode_screen_point(0xFFFF_FFF6u32 as isize), (-10, -1));
    assert_eq!(decode_screen_point(0x8000_7FFFu32 as isize), (32767, -32768));
}
