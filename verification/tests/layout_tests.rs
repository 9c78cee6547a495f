use fcitx5_ui_rs::layout::{
    padded_width, window_height, window_width, HYSTERESIS, MAX_HEIGHT, MAX_WIDTH, MIN_HEIGHT,
    MIN_WIDTH,
};

#[test]
fn short_content_gets_floor_width_plus_padding() {
    assert_eq!(window_width(0, None), 32);
    assert_eq!(window_width(1, None), 32);
    assert_eq!(window_width(20, None), 32);
}

#[test]
fn medium_content_grows_at_eight_tenths() {
    // 30 + round(0.8 * (n - 20)) + 2
    assert_eq!(window_width(21, None), 33);
    assert_eq!(window_width(22, None), 34);
    assert_eq!(window_width(25, None), 36);
    assert_eq!(window_width(30, None), 40);
    assert_eq!(window_width(40, None), 48);
}

#[test]
fn long_content_grows_at_nine_tenths() {
    // 46 + round(0.9 * (n - 40)) + 2
    assert_eq!(window_width(41, None), 49);
    assert_eq!(window_width(45, None), 53);
    assert_eq!(window_width(50, None), 57);
    assert_eq!(window_width(53, None), 60);
}

#[test]
fn width_is_capped_at_sixty() {
    assert_eq!(window_width(54, None), 60);
    assert_eq!(window_width(100, None), 60);
    assert_eq!(window_width(usize::MAX, None), 60);
    assert_eq!(window_width(usize::MAX, Some(u32::MAX)), 60);
}

#[test]
fn padded_width_is_not_clamped() {
    assert_eq!(padded_width(0), 32);
    assert_eq!(padded_width(40), 48);
    assert_eq!(padded_width(140), 138);
}

#[test]
fn width_stays_within_bounds_for_all_small_inputs() {
    for needed in 0..500usize {
        let alone = window_width(needed, None);
        assert!(MIN_WIDTH <= alone && alone <= MAX_WIDTH);
        for shown in 0..80u32 {
            let width = window_width(needed, Some(shown));
            assert!(MIN_WIDTH <= width && width <= MAX_WIDTH);
        }
    }
}

#[test]
fn hysteresis_keeps_displayed_width_within_threshold() {
    // raw width for 30 columns of content is 40
    assert_eq!(window_width(30, Some(40)), 40);
    assert_eq!(window_width(30, Some(37)), 37);
    assert_eq!(window_width(30, Some(43)), 43);
    assert_eq!(window_width(30, Some(41)), 41);
}

#[test]
fn hysteresis_gives_way_at_threshold() {
    assert_eq!(window_width(30, Some(36)), 40);
    assert_eq!(window_width(30, Some(44)), 40);
    assert_eq!(window_width(30, Some(0)), 40);
}

#[test]
fn hysteresis_is_idempotent_inside_the_permitted_range() {
    for needed in 0..200usize {
        let raw = padded_width(needed);
        for shown in MIN_WIDTH..=MAX_WIDTH {
            let gap = if raw >= shown as u64 { raw - shown as u64 } else { shown as u64 - raw };
            if gap < HYSTERESIS as u64 {
                assert_eq!(window_width(needed, Some(shown)), shown);
            }
        }
    }
}

#[test]
fn kept_width_outside_range_is_still_clamped() {
    // raw width 32, displayed 30 is kept; displayed 10 is too far away
    assert_eq!(window_width(0, Some(30)), 30);
    assert_eq!(window_width(0, Some(10)), 32);
    // raw width 63 for 57 columns: a displayed 62 is kept, then clamped
    assert_eq!(window_width(57, Some(62)), 60);
}

#[test]
fn height_adds_header_candidates_and_footer() {
    assert_eq!(window_height(true, 3, false), 5);
    assert_eq!(window_height(true, 3, true), 7);
    assert_eq!(window_height(false, 5, true), 7);
    assert_eq!(window_height(false, 4, false), 4);
}

#[test]
fn height_is_clamped() {
    assert_eq!(window_height(false, 0, false), MIN_HEIGHT);
    assert_eq!(window_height(false, 2, false), 3);
    assert_eq!(window_height(true, 0, false), 3);
    assert_eq!(window_height(true, 20, true), MAX_HEIGHT);
    assert_eq!(window_height(false, 15, false), 15);
    assert_eq!(window_height(true, 12, true), 15);
    assert_eq!(window_height(false, usize::MAX, true), 15);
}
