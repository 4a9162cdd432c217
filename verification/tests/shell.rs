use codex_peek::windows::shell::{displayed_taskbar_targets, widget_window_policy, WidgetWindowPolicy};
use codex_peek::TaskbarDisplayMode;
use codex_peek::windows::shell::{
    compact_percent_text, glass_noise, material_surface_alpha, should_open_tray_menu,
    should_open_widget_menu, taskbar_indicator_color, taskbar_palette, taskbar_risk_color,
    update_dialog_opens_release, update_dialog_style, TaskbarRefreshSchedule, UpdateDialogGate,
    IDYES, MB_TASKMODAL, NIN_SELECT, WM_CONTEXTMENU,
};
use codex_peek::windows::shell::{
    compact_taskbar_paint, profile_header_paint, TaskbarMark, TaskbarText,
};
use codex_peek::windows::taskbar_widget::{
    TaskbarIndicator, TaskbarLayout, TaskbarLayoutMode, TaskbarRisk, TaskbarVisualState,
};
use codex_peek::windows::usage_popup::{
    DT_CENTER, DT_END_ELLIPSIS, DT_LEFT, DT_RIGHT, DT_RTLREADING, DT_SINGLELINE, DT_VCENTER,
    FW_MEDIUM, FW_NORMAL,
};
use codex_peek::windows::shell::{layered_bitmap_pixels, taskbar_bitmap_pixels, WidgetBitmapError};
use codex_peek::windows::widget::Rect;

fn moved(r: Rect, dx: i32, dy: i32) -> Rect {
    Rect::new(r.left + dx, r.top + dy, r.right + dx, r.bottom + dy)
}

#[test]
fn update_dialog_guard_is_scoped_and_rejects_reentry() {
    let mut gate = UpdateDialogGate::new();
    assert!(!gate.in_progress());

    assert!(gate.acquire(), "first update dialog may enter");
    assert!(gate.in_progress());
    assert!(!gate.acquire());

    gate.release();
    assert!(!gate.in_progress());
}

#[test]
fn taskbar_refresh_schedule_retries_startup_then_uses_the_safety_interval() {
    let mut schedule = TaskbarRefreshSchedule::new();
    for _ in 0..5 {
        assert!(schedule.tick());
    }
    for _ in 0..29 {
        assert!(!schedule.tick());
    }
    assert!(schedule.tick());
}

#[test]
fn minimal_layout_keeps_error_state_visible() {
    assert_eq!(
        compact_percent_text(TaskbarLayoutMode::Minimal, TaskbarIndicator::Error, Some("42%")),
        "!"
    );
    assert_eq!(
        compact_percent_text(TaskbarLayoutMode::Full, TaskbarIndicator::Error, Some("42%")),
        "42%"
    );
}

#[test]
fn glass_noise_is_deterministic_and_subtle() {
    for y in 0..48 {
        for x in 0..208 {
            let first = glass_noise(x, y);
            assert_eq!(first, glass_noise(x, y));
            assert!((-2..=2).contains(&first));
        }
    }
}

#[test]
fn transparent_material_keeps_the_whole_widget_hit_testable() {
    assert_eq!(material_surface_alpha(0, 0), 0);
    assert_eq!(material_surface_alpha(0, 1), 1);
    assert_eq!(material_surface_alpha(0, 255), 1);
    assert_eq!(material_surface_alpha(255, 255), 28);
}

#[test]
fn taskbar_palette_keeps_text_legible_on_both_system_themes() {
    let light = taskbar_palette(true);
    let dark = taskbar_palette(false);
    assert_ne!(light.material, dark.material);
    assert!(light.label < light.material);
    assert!(dark.label > dark.material);
}

#[test]
fn taskbar_indicator_colors_are_stable() {
    assert_eq!(taskbar_indicator_color(TaskbarIndicator::Comfortable), 0x0074_c748);
    assert_eq!(taskbar_indicator_color(TaskbarIndicator::Normal), 0x0023_a6f5);
    assert_eq!(taskbar_indicator_color(TaskbarIndicator::Fast), 0x005c_5cff);
    assert_eq!(taskbar_indicator_color(TaskbarIndicator::Neutral), 0x0097_9797);
    assert_eq!(taskbar_indicator_color(TaskbarIndicator::Error), 0x005c_5cff);
}

#[test]
fn taskbar_risk_colors_follow_the_status_colors() {
    assert_eq!(taskbar_risk_color(TaskbarRisk::Healthy), 0x0074_c748);
    assert_eq!(taskbar_risk_color(TaskbarRisk::Warning), 0x0023_a6f5);
    assert_eq!(taskbar_risk_color(TaskbarRisk::Critical), 0x005c_5cff);
    assert_eq!(taskbar_risk_color(TaskbarRisk::Error), 0x005c_5cff);
    assert_eq!(taskbar_risk_color(TaskbarRisk::Loading), 0x0097_9797);
}

#[test]
fn tray_menu_uses_only_version_4_activation_events() {
    assert!(should_open_tray_menu(WM_CONTEXTMENU));
    assert!(should_open_tray_menu(NIN_SELECT));
    assert!(!should_open_tray_menu(0x0205));
    assert!(!should_open_tray_menu(0x0202));
}

#[test]
fn widget_menu_uses_the_standard_context_menu_message() {
    assert!(should_open_widget_menu(WM_CONTEXTMENU));
    assert!(!should_open_widget_menu(NIN_SELECT));
}

#[test]
fn update_dialog_opens_release_only_for_an_explicit_yes() {
    assert!(update_dialog_opens_release(IDYES));
    assert!(!update_dialog_opens_release(7));
}

#[test]
fn update_dialog_style_is_task_modal_for_an_ownerless_dialog() {
    let style = update_dialog_style(0x0000_0004, 0x0000_0040);
    assert_eq!(style & MB_TASKMODAL, MB_TASKMODAL);
    assert_eq!(style, 0x0001_2044);
}

#[test]
fn missing_percentage_shows_two_dashes() {
    assert_eq!(compact_percent_text(TaskbarLayoutMode::Compact, TaskbarIndicator::Normal, None), "--");
    assert_eq!(compact_percent_text(TaskbarLayoutMode::Minimal, TaskbarIndicator::Error, None), "!");
}

#[test]
fn glass_noise_handles_extreme_coordinates() {
    for (x, y) in [(i32::MAX, i32::MAX), (i32::MIN, i32::MIN), (-1, -1), (i32::MAX, i32::MIN)] {
        assert!((-2..=2).contains(&glass_noise(x, y)));
    }
}

#[test]
fn compact_content_places_the_layout_in_the_client_with_pace_and_risk_colors() {
    let client = Rect::new(10, 20, 218, 68);
    let palette = taskbar_palette(false);
    let visual = TaskbarVisualState {
        indicator: TaskbarIndicator::Comfortable,
        progress_risk: TaskbarRisk::Warning,
    };
    let layout = TaskbarLayout::for_size(208, 48, 96);
    assert_eq!(layout.mode, TaskbarLayoutMode::Full);
    let paint = compact_taskbar_paint(client, 96, "7d", Some("42%"), visual, palette, false);

    assert_eq!(paint.background, client);
    assert_eq!(paint.background_color, palette.material);
    assert_eq!(paint.mark, Some(TaskbarMark::Dot(moved(layout.dot.unwrap(), 10, 20), 0x0074_c748)));
    assert_eq!(
        paint.label,
        Some(TaskbarText {
            rect: moved(layout.label.unwrap(), 10, 20),
            text: "7d",
            format: DT_LEFT | DT_SINGLELINE | DT_VCENTER | DT_END_ELLIPSIS,
            color: palette.label,
            font_size: 12,
            font_weight: FW_NORMAL,
        })
    );
    assert_eq!(paint.percent.rect, moved(layout.percent, 10, 20));
    assert_eq!(paint.percent.text, "42%");
    assert_eq!(paint.percent.format, DT_RIGHT | DT_SINGLELINE | DT_VCENTER);
    assert_eq!(paint.percent.color, palette.percent);
    assert_eq!(paint.percent.font_weight, FW_MEDIUM);
    assert_eq!(paint.track, moved(layout.progress, 10, 20));
    assert_eq!(paint.track_color, palette.track);
    assert_eq!(paint.fill_color, 0x0023_a6f5);

    let rtl = compact_taskbar_paint(client, 96, "7d", None, visual, palette, true);
    assert_eq!(rtl.label.unwrap().format, DT_RIGHT | DT_RTLREADING | DT_SINGLELINE | DT_VCENTER | DT_END_ELLIPSIS);
    assert_eq!(rtl.percent.text, "--");
}

#[test]
fn compact_content_shows_errors_as_a_red_sign() {
    let palette = taskbar_palette(true);
    let visual = TaskbarVisualState { indicator: TaskbarIndicator::Error, progress_risk: TaskbarRisk::Loading };
    let full = compact_taskbar_paint(Rect::new(0, 0, 208, 48), 96, "7d", Some("42%"), visual, palette, false);
    match full.mark {
        Some(TaskbarMark::Sign(sign)) => {
            assert_eq!(sign.text, "!");
            assert_eq!(sign.color, 0x005c_5cff);
            assert_eq!(sign.format, DT_LEFT | DT_SINGLELINE | DT_VCENTER);
            assert_eq!(sign.font_size, 11);
        }
        other => panic!("expected the error sign, got {other:?}"),
    }
    assert_eq!(full.percent.text, "42%");
    assert_eq!(full.fill_color, 0x0097_9797);

    let minimal = compact_taskbar_paint(Rect::new(0, 0, 60, 48), 96, "7d", Some("42%"), visual, palette, false);
    assert_eq!(TaskbarLayout::for_size(60, 48, 96).mode, TaskbarLayoutMode::Minimal);
    assert_eq!(minimal.mark, None);
    assert_eq!(minimal.label, None);
    assert_eq!(minimal.percent.text, "!");
    assert_eq!(minimal.percent.format, DT_CENTER | DT_SINGLELINE | DT_VCENTER);
    assert_eq!(minimal.percent.color, 0x005c_5cff);
}

#[test]
fn profile_header_uses_the_label_color_on_the_reading_side() {
    let palette = taskbar_palette(true);
    let header = Rect::new(0, 0, 208, 20);
    let ltr = profile_header_paint(header, "Work", palette, false);
    assert_eq!(ltr.rect, header);
    assert_eq!(ltr.text, "Work");
    assert_eq!(ltr.color, palette.label);
    assert_eq!(ltr.format, DT_LEFT | DT_SINGLELINE | DT_VCENTER | DT_END_ELLIPSIS);
    assert_eq!((ltr.font_size, ltr.font_weight), (11, FW_MEDIUM));
    let rtl = profile_header_paint(header, "Work", palette, true);
    assert_eq!(rtl.format, DT_RIGHT | DT_RTLREADING | DT_SINGLELINE | DT_VCENTER | DT_END_ELLIPSIS);
}

#[test]
fn bitmap_sizes_need_an_area_that_fits_in_memory() {
    assert_eq!(layered_bitmap_pixels(208, 48), Some(9984));
    assert_eq!(layered_bitmap_pixels(0, 48), Some(0));
    assert_eq!(layered_bitmap_pixels(-1, 48), None);
    assert_eq!(taskbar_bitmap_pixels(208, 48), Ok(9984));
    assert_eq!(taskbar_bitmap_pixels(0, 48), Err(WidgetBitmapError::EmptyClient));
    assert_eq!(taskbar_bitmap_pixels(208, -3), Err(WidgetBitmapError::EmptyClient));
    if usize::MAX as u64 == u32::MAX as u64 {
        assert_eq!(taskbar_bitmap_pixels(i32::MAX, i32::MAX), Err(WidgetBitmapError::TooLarge));
    } else {
        assert_eq!(taskbar_bitmap_pixels(i32::MAX, 2), Ok(i32::MAX as usize * 2));
    }
}

#[test]
fn primary_monitor_mode_keeps_only_the_first_taskbar() {
    assert_eq!(displayed_taskbar_targets(vec![7usize, 8, 9], TaskbarDisplayMode::All), vec![7, 8, 9]);
    assert_eq!(displayed_taskbar_targets(vec![7usize, 8, 9], TaskbarDisplayMode::Primary), vec![7]);
    assert_eq!(displayed_taskbar_targets(Vec::<usize>::new(), TaskbarDisplayMode::Primary), Vec::<usize>::new());
    assert_eq!(widget_window_policy(false, TaskbarDisplayMode::All, vec![7usize]), WidgetWindowPolicy::HideAll);
    assert_eq!(
        widget_window_policy(true, TaskbarDisplayMode::Primary, vec![7usize, 8]),
        WidgetWindowPolicy::Show(vec![7])
    );
    assert_eq!(
        widget_window_policy(true, TaskbarDisplayMode::All, Vec::<usize>::new()),
        WidgetWindowPolicy::Show(vec![])
    );
}
