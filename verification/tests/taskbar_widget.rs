use codex_peek::windows::taskbar_widget::{taskbar_rows, tooltip_text_needs_update, TaskbarLayout};
use codex_peek::windows::widget::logical_to_physical;

#[test]
fn full_layout_reserves_two_usage_rows() {
    let layout = TaskbarLayout::for_size(208, 48, 96);

    let secondary_label = layout
        .secondary_label
        .expect("full layout should include a secondary label");
    let secondary_percent = layout
        .secondary_percent
        .expect("full layout should include a secondary percent");
    let secondary_progress = layout
        .secondary_progress
        .expect("full layout should include a secondary progress bar");

    assert!(layout.progress.bottom <= secondary_progress.top);
    for rect in [
        layout.label.expect("full layout should include a primary label"),
        secondary_label,
        layout.percent,
        secondary_percent,
        layout.progress,
        secondary_progress,
    ] {
        assert!(rect.is_inside(layout.window));
    }
}

#[test]
fn minimal_layout_keeps_only_the_primary_usage_row() {
    let layout = TaskbarLayout::for_size(99, 48, 96);

    assert!(layout.secondary_label.is_none());
    assert!(layout.secondary_percent.is_none());
    assert!(layout.secondary_progress.is_none());
}

#[test]
fn single_row_layout_uses_the_available_body_height() {
    let layout = TaskbarLayout::for_rows(208, 48, 96, false);

    assert!(layout.secondary_progress.is_none());
    assert!(layout.progress.bottom > 30);
    assert!(layout.progress.is_inside(layout.window));
}

#[test]
fn two_row_layout_stays_inside_the_minimum_taskbar_height_at_supported_dpis() {
    for dpi in [96, 120, 144, 192] {
        let width = logical_to_physical(208, dpi);
        let height = logical_to_physical(36, dpi);
        let layout = TaskbarLayout::for_size(width, height, dpi);
        let secondary_progress = layout
            .secondary_progress
            .expect("full layout should include a secondary progress bar");

        assert!(layout.progress.is_inside(layout.window));
        assert!(secondary_progress.is_inside(layout.window));
        assert!(layout.progress.bottom <= secondary_progress.top);
    }
}

#[test]
fn unchanged_tooltip_text_does_not_need_a_native_update() {
    let text = "Codex usage\nStatus: Polling";
    let encoded: Vec<u16> = text.encode_utf16().chain(Some(0)).collect();

    assert!(!tooltip_text_needs_update(&encoded, &encoded));
}

#[test]
fn changed_tooltip_text_needs_a_native_update() {
    let previous: Vec<u16> = "Codex usage".encode_utf16().chain(Some(0)).collect();
    let next: Vec<u16> = "Codex usage\nStatus: Polling"
        .encode_utf16()
        .chain(Some(0))
        .collect();

    assert!(tooltip_text_needs_update(&previous, &next));
}

struct UsageRow {
    label: &'static str,
    percent_text: &'static str,
}

#[test]
fn taskbar_rows_prioritize_primary_and_promote_secondary_when_missing() {
    let primary = UsageRow { label: "5h", percent_text: "10%" };
    let secondary = UsageRow { label: "7d", percent_text: "20%" };

    let rows = taskbar_rows(Some(&primary), Some(&secondary));
    assert!(std::ptr::eq(rows[0].expect("primary row"), &primary));
    assert!(std::ptr::eq(rows[1].expect("secondary row"), &secondary));
    assert_eq!(rows[0].unwrap().label, "5h");
    assert_eq!(rows[1].unwrap().percent_text, "20%");

    let promoted = taskbar_rows(None, Some(&secondary));
    assert!(std::ptr::eq(promoted[0].expect("promoted row"), &secondary));
    assert!(promoted[1].is_none());
}
