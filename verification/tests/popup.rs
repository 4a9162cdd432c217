use codex_peek::windows::popup::{
    menu_item_height, menu_item_width, place_popup, popup_palette, popup_render_mode,
    tooltip_show_decision, MenuItemKind, PopupRenderMode, TooltipShowDecision,
};
use codex_peek::windows::popup::{popup_max_height, popup_width_for_work_area};
use codex_peek::windows::widget::Rect;

#[test]
fn popup_prefers_above_anchor_and_stays_inside_work_area() {
    let bounds = place_popup(
        Rect::new(1_800, 1_000, 1_900, 1_040),
        Rect::new(0, 0, 1_920, 1_080),
        (360, 500),
        8,
        8,
    );

    assert_eq!(bounds, Rect::new(1_552, 492, 1_912, 992));
}

#[test]
fn popup_uses_below_anchor_when_above_has_insufficient_space() {
    let bounds = place_popup(
        Rect::new(20, 10, 120, 50),
        Rect::new(0, 0, 1_280, 720),
        (360, 500),
        8,
        8,
    );

    assert_eq!(bounds, Rect::new(20, 58, 380, 558));
    assert!(bounds.is_inside(Rect::new(8, 8, 1_272, 712)));
}

#[test]
fn accessibility_modes_use_native_fallback() {
    assert_eq!(popup_render_mode(false, false), PopupRenderMode::Custom);
    assert_eq!(popup_render_mode(true, false), PopupRenderMode::Native);
    assert_eq!(popup_render_mode(false, true), PopupRenderMode::Native);
}

#[test]
fn native_tooltip_is_parked_only_after_custom_render_succeeds() {
    assert_eq!(
        tooltip_show_decision(PopupRenderMode::Custom, true),
        TooltipShowDecision::ShowCustomAndParkNative
    );
    assert_eq!(
        tooltip_show_decision(PopupRenderMode::Custom, false),
        TooltipShowDecision::ShowNative
    );
    assert_eq!(
        tooltip_show_decision(PopupRenderMode::Native, true),
        TooltipShowDecision::ShowNative
    );
}

#[test]
fn light_and_dark_palettes_keep_one_accent_and_distinct_surfaces() {
    let light = popup_palette(true);
    let dark = popup_palette(false);

    assert_eq!(light.accent, dark.accent);
    assert_ne!(light.background, dark.background);
    assert_ne!(light.text, dark.text);
    assert_ne!(light.selection, dark.selection);
}

#[test]
fn owner_draw_menu_uses_compact_rows_and_a_taller_info_banner() {
    assert_eq!(menu_item_height(MenuItemKind::Command), 32);
    assert_eq!(menu_item_height(MenuItemKind::Submenu), 32);
    assert_eq!(menu_item_height(MenuItemKind::Info), 40);
}

#[test]
fn owner_draw_menu_width_has_readable_minimum_and_screen_safe_ceiling() {
    assert_eq!(menu_item_width(5), 220);
    assert_eq!(menu_item_width(30), 282);
    assert_eq!(menu_item_width(200), 520);
}

#[test]
fn popup_larger_than_the_work_area_is_cut_to_the_margin() {
    let bounds = place_popup(
        Rect::new(100, 100, 200, 140),
        Rect::new(0, 0, 300, 200),
        (360, 500),
        8,
        8,
    );
    assert_eq!(bounds, Rect::new(8, 8, 292, 192));
}

#[test]
fn negative_margin_and_gap_count_as_zero() {
    let bounds = place_popup(
        Rect::new(100, 400, 200, 440),
        Rect::new(0, 0, 1_000, 800),
        (200, 100),
        -5,
        -5,
    );
    assert_eq!(bounds, Rect::new(100, 300, 300, 400));
}

#[test]
fn menu_width_saturates_for_huge_labels() {
    assert_eq!(menu_item_width(usize::MAX), 520);
    assert_eq!(menu_item_width(0), 220);
}

#[test]
fn popup_width_fits_the_work_area_and_rejects_narrow_ones() {
    let wide = Rect::new(0, 0, 1920, 1040);
    assert_eq!(popup_width_for_work_area(wide, 96), Some(360));
    assert_eq!(popup_width_for_work_area(wide, 192), Some(720));
    assert_eq!(popup_width_for_work_area(Rect::new(0, 0, 300, 600), 96), Some(276));
    assert_eq!(popup_width_for_work_area(Rect::new(0, 0, 220, 600), 96), None);
    assert_eq!(popup_max_height(wide, 96), 560);
    assert_eq!(popup_max_height(Rect::new(0, 0, 800, 400), 96), 376);
}
