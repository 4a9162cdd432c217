use codex_peek::windows::usage_popup::{
    daily_chart_bounds, daily_date_bounds, daily_date_indices, daily_date_label,
    daily_date_text_format, daily_usage_bar_height, daily_usage_chart_height, daily_usage_slot,
    popup_columns, popup_render_size, wrapped_text_format, TextStyle, DT_CENTER, DT_LEFT,
    DT_NOPREFIX, DT_RIGHT, DT_RTLREADING, DT_SINGLELINE, DT_VCENTER, DT_WORDBREAK,
};
use codex_peek::windows::widget::{logical_to_physical, Rect};

#[test]
fn daily_usage_bar_height_preserves_zero_and_scales_positive_values() {
    assert_eq!(daily_usage_bar_height(50, 100, 80), 40);
    assert_eq!(daily_usage_bar_height(0, 0, 80), 0);
    assert_eq!(daily_usage_bar_height(0, 100, 80), 0);
    assert_eq!(daily_usage_bar_height(1, u64::MAX, 80), 1);
    assert_eq!(daily_usage_bar_height(u64::MAX, u64::MAX, 80), 80);
    assert_eq!(daily_usage_bar_height(200, 100, 80), 80);
    assert_eq!(daily_usage_bar_height(50, 0, 80), 0);
    assert_eq!(daily_usage_bar_height(50, 100, 0), 0);
    assert_eq!(daily_usage_bar_height(50, 100, -1), 0);
}

#[test]
fn daily_date_labels_choose_at_most_three_evenly_spaced_days() {
    assert_eq!(daily_date_indices(0), Vec::<usize>::new());
    assert_eq!(daily_date_indices(1), vec![0]);
    assert_eq!(daily_date_indices(2), vec![0, 1]);
    assert_eq!(daily_date_indices(5), vec![0, 2, 4]);
}

#[test]
fn daily_date_label_keeps_month_and_day_compact() {
    assert_eq!(daily_date_label("2026-08-19"), "08/19");
    assert_eq!(daily_date_label("invalid"), "invalid");
}

#[test]
fn daily_date_label_drops_the_time_and_keeps_odd_dates() {
    assert_eq!(daily_date_label("2026-08-19T10:00:00Z"), "08/19");
    assert_eq!(daily_date_label("2026-8-19"), "2026-8-19");
    assert_eq!(daily_date_label("2026-08-1x"), "2026-08-1x");
    assert_eq!(daily_date_label("2026-08"), "2026-08");
    assert_eq!(daily_date_label("2026-08-190"), "08/19");
    assert_eq!(daily_date_label(""), "");
}

#[test]
fn daily_date_text_is_centered_and_transparent() {
    assert_eq!(daily_date_text_format(false), DT_CENTER | DT_SINGLELINE | DT_VCENTER | DT_NOPREFIX);
    assert_eq!(
        daily_date_text_format(true),
        DT_CENTER | DT_SINGLELINE | DT_VCENTER | DT_RTLREADING | DT_NOPREFIX
    );
}

#[test]
fn oversized_content_uses_the_native_fallback_instead_of_clipping() {
    assert_eq!(popup_render_size((360, 800), Rect::new(0, 0, 360, 480)), None);
    assert_eq!(popup_render_size((360, 480), Rect::new(0, 0, 360, 480)), Some((360, 480)));
}

#[test]
fn daily_slots_cover_the_area_and_mirror_in_rtl() {
    let area = Rect::new(10, 0, 110, 50);
    let first = daily_usage_slot(area, 0, 3, false).unwrap();
    let last = daily_usage_slot(area, 2, 3, false).unwrap();
    assert_eq!(first, Rect::new(10, 0, 43, 50));
    assert_eq!(last, Rect::new(76, 0, 110, 50));
    assert_eq!(daily_usage_slot(area, 0, 3, true).unwrap(), last);
    assert_eq!(daily_usage_slot(area, 3, 3, false), None);
    assert_eq!(daily_usage_slot(Rect::new(0, 0, 0, 10), 0, 1, false), None);
}

#[test]
fn date_bounds_center_on_the_slot_and_stay_in_the_area() {
    let area = Rect::new(0, 60, 300, 76);
    let slot = Rect::new(0, 0, 30, 50);
    let bounds = daily_date_bounds(area, slot, 10, 96);
    assert_eq!(bounds, Rect::new(0, 60, 44, 76));
    let middle = daily_date_bounds(area, Rect::new(130, 0, 170, 50), 10, 96);
    assert_eq!(middle, Rect::new(128, 60, 172, 76));
}

#[test]
fn chart_bounds_leave_half_a_label_on_each_side() {
    assert_eq!(daily_chart_bounds(Rect::new(20, 0, 340, 53), 96), Rect::new(42, 0, 318, 53));
    assert_eq!(daily_chart_bounds(Rect::new(0, 0, 10, 53), 96), Rect::new(5, 0, 5, 53));
    assert_eq!(daily_usage_chart_height(96), 53);
    assert_eq!(daily_usage_chart_height(192), 106);
}

#[test]
fn columns_stack_on_narrow_popups_and_mirror_the_number_in_rtl() {
    let (label, number, paired) = popup_columns(360, 96, false);
    assert!(paired);
    assert_eq!(label, Rect::new(20, 0, 220, 0));
    assert_eq!(number, Rect::new(232, 0, 340, 0));
    let (label, number, paired) = popup_columns(360, 96, true);
    assert!(paired);
    assert_eq!(label, Rect::new(140, 0, 340, 0));
    assert_eq!(number, Rect::new(20, 0, 128, 0));
    let (label, number, paired) = popup_columns(300, 96, false);
    assert!(!paired);
    assert_eq!(label, number);
    assert_eq!(label, Rect::new(20, 0, 280, 0));
}

#[test]
fn text_styles_have_their_sizes_and_weights() {
    assert_eq!(TextStyle::Meta.size(), 12);
    assert_eq!(TextStyle::Label.size(), 14);
    assert_eq!(TextStyle::Body.size(), 13);
    assert_eq!(TextStyle::Error.size(), 13);
    assert_eq!(TextStyle::Headline.size(), 28);
    assert_eq!(TextStyle::Title.size(), 18);
    assert_eq!(TextStyle::Title.weight(), 600);
    assert_eq!(TextStyle::Body.weight(), 400);
}

#[test]
fn long_detail_text_wraps_without_ellipsis_in_ltr_and_rtl() {
    assert_eq!(wrapped_text_format(false), DT_LEFT | DT_WORDBREAK | DT_NOPREFIX);
    assert_eq!(
        wrapped_text_format(true),
        DT_RIGHT | DT_RTLREADING | DT_WORDBREAK | DT_NOPREFIX
    );
}

#[test]
fn allowance_columns_stack_on_narrow_screens_and_mirror_at_every_dpi() {
    for dpi in [96, 120, 144, 168, 192] {
        let scale = |value| logical_to_physical(value, dpi);
        let (main, side, columns) = popup_columns(scale(440), dpi, false);
        assert!(columns);
        assert!(main.right < side.left);
        let (rtl_main, rtl_side, _) = popup_columns(scale(440), dpi, true);
        assert_eq!(main.width(), rtl_main.width());
        assert_eq!(side.width(), rtl_side.width());
        assert!(rtl_side.right < rtl_main.left);
        let (main, side, columns) = popup_columns(scale(280), dpi, false);
        assert!(!columns);
        assert_eq!(main, side);
    }
}

#[test]
fn daily_chart_columns_and_dates_stay_aligned_across_dpi_and_direction() {
    for dpi in [96, 120, 144, 192] {
        let width = logical_to_physical(272, dpi);
        let area = Rect::new(20, 0, 20 + width, 28);
        let chart = daily_chart_bounds(area, dpi);
        for count in [1, 2, 3, 5, 14] {
            for rtl in [false, true] {
                let mut labels: Vec<Rect> = Vec::new();
                for index in 0..count {
                    let slot = daily_usage_slot(chart, index, count, rtl).unwrap();
                    let mirrored = daily_usage_slot(chart, count - 1 - index, count, !rtl).unwrap();
                    assert_eq!(slot, mirrored);
                    assert!(slot.is_inside(area));
                    if daily_date_indices(count).contains(&index) {
                        let label = daily_date_bounds(area, slot, count, dpi);
                        assert!(label.is_inside(area));
                        let center = slot.left + slot.width() / 2;
                        assert!(label.left <= center && center <= label.right);
                        assert_eq!(label.left + label.width() / 2, center);
                        assert!(labels.iter().all(|other| !label.intersects(*other)));
                        labels.push(label);
                    }
                }
            }
        }
    }
    let tiny = Rect::new(0, 0, 5, 10);
    for rtl in [false, true] {
        let slots: Vec<_> = (0..14).filter_map(|index| daily_usage_slot(tiny, index, 14, rtl)).collect();
        assert_eq!(slots.len(), 5);
        assert!(slots.iter().all(|slot| slot.is_inside(tiny)));
    }
    assert_eq!(daily_usage_slot(tiny, 0, 0, false), None);
    assert_eq!(daily_usage_slot(tiny, 14, 14, false), None);
    assert_eq!(daily_usage_slot(Rect::new(0, 0, 0, 10), 0, 1, false), None);
}
