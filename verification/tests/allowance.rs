use codex_peek::text::wide;
use codex_peek::windows::allowance::{
    allowance_layout, readable_allowance_layout, AllowancePresentation, AllowanceRow,
};
use codex_peek::windows::taskbar_widget::{
    profile_header_text, select_weekly_row, taskbar_rows, taskbar_visual_state,
    widget_surface_layout, TaskbarIndicator, TaskbarRisk,
};
use codex_peek::windows::usage_popup::TextStyle;
use codex_peek::windows::widget::logical_to_physical;
use codex_peek::windows::{ConsumptionPaceState, WidgetDataState};

fn presentation(rows: usize, forecasts: usize, daily: bool) -> AllowancePresentation {
    AllowancePresentation {
        profile_label: "Work".to_string(),
        lead_label: "Weekly".to_string(),
        status: Some("Polling".to_string()),
        data_state: WidgetDataState::Ready,
        lead_percent: "34%".to_string(),
        rows: (0..rows)
            .map(|i| AllowanceRow {
                label: format!("Window {i}"),
                percent_text: format!("{}%", 10 * i),
                reset_text: if i == 0 { String::new() } else { "tomorrow".to_string() },
            })
            .collect(),
        reset_label: "Resets".to_string(),
        reset_credits_text: None,
        pace_summary: "Usage pace: Comfortable".to_string(),
        pace_detail: Some("Used 2% over the last 2 hours".to_string()),
        forecast_label: "Forecast".to_string(),
        forecasts: (0..forecasts).map(|i| format!("Forecast {i}")).collect(),
        has_daily_usage: daily,
        daily_usage_label: "Daily usage".to_string(),
        last_success: "just now".to_string(),
    }
}

fn measure(text: &str, width: i32, _style: TextStyle) -> i32 {
    let chars = text.chars().count() as i32;
    let per_line = (width / 7).max(1);
    ((chars + per_line - 1) / per_line).max(1) * 18
}

fn korean(mut p: AllowancePresentation) -> AllowancePresentation {
    p.profile_label = "개인 프로필".to_string();
    p.pace_summary = "사용 속도 여유 · 최근 관측 기준".to_string();
    p.pace_detail = Some("최근 2시간 동안 2% 사용 · 시간당 약 1%".to_string());
    p.forecasts = vec!["예측에 필요한 표본을 수집하고 있습니다".to_string()];
    p.last_success = "마지막 성공 120초 전".to_string();
    p
}

#[test]
fn allowance_measured_layout_and_render_keep_content_inside_paper() {
    for (p, rtl) in [
        (korean(presentation(2, 2, true)), false),
        (presentation(2, 2, true), false),
        (presentation(2, 2, true), true),
    ] {
        for dpi in [96, 120, 144, 168, 192] {
            for logical_width in [280, 320, 400] {
                let width = logical_to_physical(logical_width, dpi);
                for compact in [false, true] {
                    let layout = allowance_layout(&p, width, dpi, rtl, compact, &measure);
                    assert_eq!(layout.width, width);
                    let rule = layout.rules[0];
                    for (index, block) in layout.blocks.iter().enumerate() {
                        assert!(block.rect.left >= 0 && block.rect.right <= width);
                        assert!(block.rect.top >= 0 && block.rect.bottom <= layout.height);
                        assert!(layout.blocks[index + 1..].iter().all(|other| !block.rect.intersects(other.rect)));
                        assert!(layout.rules.iter().all(|rule| !block.rect.intersects(*rule)));
                    }
                    assert!(rule.top >= 0 && rule.bottom <= layout.height);
                    assert!(layout.blocks.iter().any(|block| block.text == p.rows[1].percent_text));
                    assert_eq!(layout.meters.len(), 2);
                    assert_eq!(layout.rules.len(), 1);
                    assert!(layout.insight.is_some());
                    assert_eq!(layout.daily_usage.is_some(), !compact);
                }
            }
        }
    }
}

#[test]
fn allowance_keeps_each_reset_beside_its_window_and_risk_independent_of_display_mode() {
    for remaining in [true, false] {
        let mut p = presentation(2, 1, false);
        for (i, row) in p.rows.iter_mut().enumerate() {
            row.reset_text = format!("2026-08-1{} 10:23", i + 1);
        }
        p.rows[1].percent_text = if remaining { "5%" } else { "95%" }.to_string();
        let layout = allowance_layout(&p, 400, 96, false, false, &|_: &str, _: i32, style: TextStyle| style.size() + 6);
        assert_eq!(layout.meters.len(), 2);
        for (index, row) in p.rows.iter().enumerate() {
            let value = layout.blocks.iter().find(|block| block.text == row.percent_text).unwrap();
            let reset = layout.blocks.iter().find(|block| block.text.ends_with(&row.reset_text)).unwrap();
            assert!(value.rect.bottom <= layout.meters[index].top);
            assert!(layout.meters[index].bottom <= reset.rect.top);
            if let Some(next) = p.rows.get(index + 1) {
                let next_value = layout.blocks.iter().find(|block| block.text == next.percent_text).unwrap();
                assert!(reset.rect.bottom < next_value.rect.top);
            }
        }
    }
}

#[test]
fn allowance_texts_follow_reading_order_and_keep_every_number() {
    let p = presentation(2, 1, true);
    let layout = allowance_layout(&p, 360, 96, false, false, &measure);
    let texts: Vec<&str> = layout.blocks.iter().map(|b| b.text.as_str()).collect();
    assert_eq!(
        texts,
        vec![
            "Work",
            "Weekly",
            "Polling",
            "Window 0",
            "0%",
            "Window 1",
            "10%",
            "Resets: tomorrow",
            "Usage pace: Comfortable",
            "Used 2% over the last 2 hours",
            "Forecast",
            "Forecast 0",
            "Daily usage",
            "just now"
        ]
    );
}

#[test]
fn compact_allowance_drops_only_the_detail_and_the_chart() {
    let p = presentation(1, 1, true);
    let full = allowance_layout(&p, 360, 96, false, false, &measure);
    let compact = allowance_layout(&p, 360, 96, false, true, &measure);
    assert!(compact.height < full.height);
    assert!(compact.daily_usage.is_none());
    let texts: Vec<&str> = compact.blocks.iter().map(|b| b.text.as_str()).collect();
    assert!(!texts.contains(&"Used 2% over the last 2 hours"));
    assert!(!texts.contains(&"Daily usage"));
    assert!(texts.contains(&"0%"));
    assert!(texts.contains(&"Forecast 0"));
}

#[test]
fn allowance_without_rows_shows_the_lead_percentage_and_no_insight() {
    let mut p = presentation(0, 2, false);
    p.data_state = WidgetDataState::Error;
    let layout = allowance_layout(&p, 360, 96, false, false, &measure);
    let texts: Vec<&str> = layout.blocks.iter().map(|b| b.text.as_str()).collect();
    assert_eq!(texts, vec!["Work", "Weekly", "Polling", "34%", "just now"]);
    assert_eq!(layout.blocks[2].style, TextStyle::Error);
    assert!(layout.insight.is_none());
    assert!(layout.meters.is_empty());
}

#[test]
fn paired_columns_put_the_percentage_beside_the_label() {
    let p = presentation(1, 0, false);
    let layout = allowance_layout(&p, 360, 96, false, false, &measure);
    let label = layout.blocks.iter().find(|b| b.text == "Window 0").unwrap();
    let number = layout.blocks.iter().find(|b| b.text == "0%").unwrap();
    assert!(label.rect.right <= number.rect.left);
    let stacked = allowance_layout(&p, 300, 96, false, false, &measure);
    let label = stacked.blocks.iter().find(|b| b.text == "Window 0").unwrap();
    let number = stacked.blocks.iter().find(|b| b.text == "0%").unwrap();
    assert!(label.rect.bottom <= number.rect.top);
}

#[test]
fn wide_strings_are_nul_terminated_utf16() {
    assert_eq!(wide("Ab"), vec![0x41, 0x62, 0]);
    assert_eq!(wide(""), vec![0]);
    assert_eq!(wide("한"), vec![0xD55C, 0]);
    assert_eq!(wide("😀"), "😀".encode_utf16().chain(Some(0)).collect::<Vec<u16>>());
}

#[test]
fn weekly_row_prefers_the_secondary_window() {
    let primary = 1;
    let secondary = 2;
    assert_eq!(select_weekly_row(Some(&primary), Some(&secondary)), Some(&secondary));
    assert_eq!(select_weekly_row(Some(&primary), None), Some(&primary));
    assert_eq!(taskbar_rows(Some(&primary), Some(&secondary)), [Some(&primary), Some(&secondary)]);
    assert_eq!(taskbar_rows(None, Some(&secondary)), [Some(&secondary), None]);
}

#[test]
fn status_dot_separates_query_state_from_pace() {
    let ready = taskbar_visual_state(WidgetDataState::Ready, ConsumptionPaceState::Exhausted, Some(TaskbarRisk::Warning));
    assert_eq!(ready.indicator, TaskbarIndicator::Fast);
    assert_eq!(ready.progress_risk, TaskbarRisk::Warning);
    let failed = taskbar_visual_state(WidgetDataState::Error, ConsumptionPaceState::Comfortable, None);
    assert_eq!(failed.indicator, TaskbarIndicator::Error);
    assert_eq!(failed.progress_risk, TaskbarRisk::Loading);
    let loading = taskbar_visual_state(WidgetDataState::Loading, ConsumptionPaceState::Normal, None);
    assert_eq!(loading.indicator, TaskbarIndicator::Neutral);
}

#[test]
fn profile_header_appears_only_on_floating_widgets_with_a_name() {
    let floating = widget_surface_layout(208, 80, 96, false);
    let attached = widget_surface_layout(208, 48, 96, true);
    assert_eq!(profile_header_text("Work", floating), floating.profile_header.map(|_| "Work"));
    assert_eq!(profile_header_text("Work", attached), None);
    assert_eq!(profile_header_text("", floating), None);
}

#[test]
fn popup_falls_back_to_the_compact_layout_and_gives_up_when_even_that_is_too_tall() {
    let p = presentation(2, 2, true);
    let full = allowance_layout(&p, 360, 96, false, false, &measure);
    let compact = allowance_layout(&p, 360, 96, false, true, &measure);
    assert!(compact.height < full.height);

    let (layout, is_compact) = readable_allowance_layout(&p, 360, 96, false, full.height, &measure).unwrap();
    assert!(!is_compact);
    assert_eq!(layout.height, full.height);

    let (layout, is_compact) = readable_allowance_layout(&p, 360, 96, false, full.height - 1, &measure).unwrap();
    assert!(is_compact);
    assert_eq!(layout.height, compact.height);
    assert!(layout.daily_usage.is_none());

    assert!(readable_allowance_layout(&p, 360, 96, false, compact.height - 1, &measure).is_none());
}

#[test]
fn right_to_left_popup_mirrors_the_number_column() {
    let p = presentation(1, 1, false);
    let layout = allowance_layout(&p, 360, 96, true, false, &measure);
    let label = layout.blocks.iter().find(|b| b.text == "Window 0").unwrap();
    let number = layout.blocks.iter().find(|b| b.text == "0%").unwrap();
    assert_eq!((number.rect.left, number.rect.right), (20, 128));
    assert_eq!((label.rect.left, label.rect.right), (140, 340));
    let profile = layout.blocks.iter().find(|b| b.text == "Work").unwrap();
    assert_eq!((profile.rect.left, profile.rect.right), (20, 340));
    let forecast = layout.blocks.iter().find(|b| b.text == "Forecast 0").unwrap();
    assert_eq!((forecast.rect.left, forecast.rect.right), (32, 328));
    let ltr = allowance_layout(&p, 360, 96, false, false, &measure);
    let number = ltr.blocks.iter().find(|b| b.text == "0%").unwrap();
    assert_eq!((number.rect.left, number.rect.right), (232, 340));
}
