use codex_peek::windows::taskbar::fallback_notification_area;
use codex_peek::windows::theme::light_theme_from_registry_value;
use codex_peek::windows::time::{file_time_ticks, file_time_ticks_from_parts, FileTimeError};
use codex_peek::windows::tray::command_glyph;
use codex_peek::windows::widget::Rect;
use codex_peek::windows::{MENU_EXIT, MENU_REFRESH};
use std::time::{Duration, UNIX_EPOCH};

#[test]
fn missing_theme_registry_value_falls_back_to_dark() {
    assert!(!light_theme_from_registry_value(None));
    assert!(!light_theme_from_registry_value(Some(0)));
    assert!(light_theme_from_registry_value(Some(1)));
}

#[test]
fn file_time_ticks_preserve_the_windows_epoch_offset() {
    assert_eq!(file_time_ticks(UNIX_EPOCH).unwrap(), 116_444_736_000_000_000);
    assert_eq!(
        file_time_ticks(UNIX_EPOCH + Duration::from_secs(1)).unwrap(),
        116_444_736_010_000_000
    );
}

#[test]
fn file_time_ticks_reject_pre_unix_epoch_values() {
    assert!(file_time_ticks(UNIX_EPOCH - Duration::from_secs(1)).is_err());
}

#[test]
fn file_time_ticks_keep_sub_second_precision_and_detect_overflow() {
    assert_eq!(
        file_time_ticks(UNIX_EPOCH + Duration::from_nanos(1_234_567_891)).unwrap(),
        116_444_736_012_345_678
    );
    assert_eq!(file_time_ticks_from_parts(2, 150), Ok(116_444_736_020_000_001));
    assert_eq!(file_time_ticks_from_parts(u64::MAX, 0), Err(FileTimeError::Overflow));
    assert_eq!(
        file_time_ticks(UNIX_EPOCH - Duration::from_secs(1)),
        Err(FileTimeError::BeforeUnixEpoch)
    );
}

#[test]
fn fallback_notification_area_takes_the_right_end() {
    let taskbar = Rect::new(0, 1032, 1920, 1080);
    assert_eq!(fallback_notification_area(taskbar, 96), Rect::new(1740, 1032, 1920, 1080));
    let narrow = Rect::new(0, 0, 300, 48);
    assert_eq!(fallback_notification_area(narrow, 96), Rect::new(200, 0, 300, 48));
    let empty = Rect::new(10, 0, 5, 48);
    assert_eq!(fallback_notification_area(empty, 96), Rect::new(5, 0, 5, 48));
}

#[test]
fn menu_glyphs_mark_checked_items_and_known_commands() {
    assert_eq!(command_glyph(MENU_REFRESH, true), "\u{E73E}");
    assert_eq!(command_glyph(MENU_REFRESH, false), "\u{E72C}");
    assert_eq!(command_glyph(MENU_EXIT, false), "\u{E8BB}");
    assert_eq!(command_glyph(9999, false), "\u{E8B8}");
}
