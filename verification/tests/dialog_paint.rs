use codex_peek::windows::design::{DialogPalette, DialogTheme, LogicalRect};
use codex_peek::windows::dialog_paint::{
    add_control_tooltip_flags, dialog_child_text_ex_style, dialog_root_ex_style,
    directional_profile_text_format, fill_primary_button_rect, paint_primary_button,
    primary_button_paint_state, BrushCall, ButtonCall, ButtonFillError, PrimaryButtonBrushBackend,
    PrimaryButtonCue, PrimaryButtonPaintBackend, PrimaryButtonPaintStage, PrimaryButtonSurface,
    CDIS_DEFAULT, CDIS_DISABLED, CDIS_FOCUS, CDIS_HOT, CDIS_SELECTED, CLR_INVALID, TTF_IDISHWND,
    TTF_RTLREADING, TTF_SUBCLASS,
    WS_EX_DLGMODALFRAME, WS_EX_LAYOUTRTL, WS_EX_NOINHERITLAYOUT, WS_EX_RTLREADING,
};
use codex_peek::windows::profile_dialog::{
    bound_dialog_outer_rect, maximum_client_height_for_work_area,
    requested_client_width_for_work_area, DialogWindowSize, DialogWorkArea,
    PREFERRED_DIALOG_CLIENT_WIDTH,
};
use codex_peek::windows::usage_popup::{DT_NOPREFIX, DT_RIGHT, DT_RTLREADING, DT_SINGLELINE};
use codex_peek::Language;
use std::collections::VecDeque;

#[test]
fn destination_work_area_bounds_and_repositions_the_outer_window_on_both_axes() {
    let work_area = DialogWorkArea::new(-1280, 0, 0, 720);
    let suggested = LogicalRect::new(-900, 300, 500, 1200);

    assert_eq!(
        bound_dialog_outer_rect(suggested, DialogWindowSize::new(1400, 900), work_area),
        LogicalRect::new(-1280, 0, 0, 720)
    );

    assert_eq!(
        bound_dialog_outer_rect(suggested, DialogWindowSize::new(900, 600), work_area),
        LogicalRect::new(-900, 120, 0, 720)
    );
}

#[test]
fn a_fitting_window_keeps_its_position_and_size() {
    let work_area = DialogWorkArea::new(0, 0, 1920, 1040);
    let current = LogicalRect::new(100, 50, 300, 250);
    assert_eq!(
        bound_dialog_outer_rect(current, DialogWindowSize::new(650, 410), work_area),
        LogicalRect::new(100, 50, 750, 460)
    );
    assert_eq!(
        bound_dialog_outer_rect(current, DialogWindowSize::new(-5, -5), work_area),
        LogicalRect::new(100, 50, 100, 50)
    );
}

#[test]
fn requested_client_width_is_the_work_area_less_the_frame_in_logical_pixels() {
    assert_eq!(requested_client_width_for_work_area(None, None, 96), PREFERRED_DIALOG_CLIENT_WIDTH);
    let wide = DialogWorkArea::new(0, 0, 1920, 1040);
    assert_eq!(
        requested_client_width_for_work_area(Some(wide), Some(DialogWindowSize::new(16, 39)), 96),
        620
    );
    let narrow = DialogWorkArea::new(0, 0, 400, 300);
    assert_eq!(
        requested_client_width_for_work_area(Some(narrow), Some(DialogWindowSize::new(16, 39)), 96),
        384
    );
    assert_eq!(requested_client_width_for_work_area(Some(narrow), None, 192), 200);
    let tiny = DialogWorkArea::new(0, 0, 10, 10);
    assert_eq!(
        requested_client_width_for_work_area(Some(tiny), Some(DialogWindowSize::new(40, 40)), 96),
        1
    );
}

#[test]
fn maximum_client_height_is_the_work_area_less_the_frame() {
    let work_area = DialogWorkArea::new(0, 0, 1920, 1040);
    assert_eq!(
        maximum_client_height_for_work_area(work_area, Some(DialogWindowSize::new(16, 39))),
        1001
    );
    assert_eq!(maximum_client_height_for_work_area(work_area, None), 1040);
    assert_eq!(
        maximum_client_height_for_work_area(
            DialogWorkArea::new(0, 0, 100, 20),
            Some(DialogWindowSize::new(16, 39))
        ),
        0
    );
}

#[test]
fn primary_button_default_state_has_a_distinct_default_border_cue() {
    let focused = primary_button_paint_state(CDIS_FOCUS, true).unwrap();
    let defaulted = primary_button_paint_state(CDIS_DEFAULT, true).unwrap();

    assert_eq!(focused.cue, PrimaryButtonCue::Focus);
    assert_eq!(defaulted.cue, PrimaryButtonCue::DefaultBorder);
    assert_ne!(focused.cue, defaulted.cue);
}

#[test]
fn primary_button_state_follows_the_custom_draw_flags() {
    assert_eq!(primary_button_paint_state(0, false), None);
    assert_eq!(primary_button_paint_state(CDIS_DISABLED | CDIS_HOT, true), None);
    let pressed = primary_button_paint_state(CDIS_SELECTED | CDIS_HOT, true).unwrap();
    assert_eq!(pressed.surface, PrimaryButtonSurface::Pressed);
    assert_eq!(primary_button_paint_state(CDIS_HOT, true).unwrap().surface, PrimaryButtonSurface::Hot);
    let plain = primary_button_paint_state(0, true).unwrap();
    assert_eq!(plain.surface, PrimaryButtonSurface::Normal);
    assert_eq!(plain.cue, PrimaryButtonCue::NoCue);
    assert_eq!(
        primary_button_paint_state(CDIS_DEFAULT | CDIS_FOCUS, true).unwrap().cue,
        PrimaryButtonCue::DefaultBorderAndFocus
    );
}

#[test]
fn add_control_tooltip_uses_rtl_reading_only_for_arabic() {
    assert_eq!(add_control_tooltip_flags(Language::English), TTF_IDISHWND | TTF_SUBCLASS);
    assert_eq!(
        add_control_tooltip_flags(Language::Arabic),
        TTF_IDISHWND | TTF_SUBCLASS | TTF_RTLREADING
    );
}

#[test]
fn arabic_dialogs_mirror_the_root_and_read_children_right_to_left() {
    assert_eq!(dialog_root_ex_style(Language::Korean), WS_EX_DLGMODALFRAME);
    assert_eq!(
        dialog_root_ex_style(Language::Arabic),
        WS_EX_DLGMODALFRAME | WS_EX_LAYOUTRTL | WS_EX_NOINHERITLAYOUT
    );
    assert_eq!(dialog_child_text_ex_style(Language::English), 0);
    assert_eq!(dialog_child_text_ex_style(Language::Arabic), WS_EX_RTLREADING);
    assert_eq!(directional_profile_text_format(false), DT_SINGLELINE | DT_NOPREFIX);
    assert_eq!(
        directional_profile_text_format(true),
        DT_SINGLELINE | DT_NOPREFIX | DT_RTLREADING | DT_RIGHT
    );
    assert_eq!(directional_profile_text_format(true), 0x0002_0822);
}

struct RecordingPrimaryButtonBrushBackend {
    color_results: VecDeque<u32>,
    set_colors: Vec<u32>,
    fill_calls: usize,
    fail_fill: bool,
}

impl PrimaryButtonBrushBackend for RecordingPrimaryButtonBrushBackend {
    type Error = String;

    fn brush_calls(&self) -> vstd::seq::Seq<BrushCall<String>> {
        vstd::seq::Seq::empty()
    }

    fn set_brush_color(&mut self, color: u32) -> u32 {
        self.set_colors.push(color);
        self.color_results.pop_front().unwrap()
    }

    fn fill_rect(&mut self, _rect: &LogicalRect) -> Result<(), String> {
        self.fill_calls += 1;
        if self.fail_fill {
            Err("injected FillRect failure".to_string())
        } else {
            Ok(())
        }
    }
}

#[test]
fn concrete_primary_fill_rejects_brush_color_apply_failure_before_fill() {
    let mut backend = RecordingPrimaryButtonBrushBackend {
        color_results: VecDeque::from([CLR_INVALID]),
        set_colors: Vec::new(),
        fill_calls: 0,
        fail_fill: false,
    };
    let rect = LogicalRect::new(0, 0, 80, 32);

    assert!(fill_primary_button_rect(&mut backend, &rect, 0x0012_3456).is_err());
    assert_eq!(backend.set_colors, [0x0012_3456]);
    assert_eq!(backend.fill_calls, 0);
}

#[test]
fn concrete_primary_fill_propagates_restore_failure_and_restores_after_fill_failure() {
    let rect = LogicalRect::new(0, 0, 80, 32);
    let previous = 0x0065_4321;
    let requested = 0x0012_3456;
    let mut restore_failure = RecordingPrimaryButtonBrushBackend {
        color_results: VecDeque::from([previous, CLR_INVALID]),
        set_colors: Vec::new(),
        fill_calls: 0,
        fail_fill: false,
    };

    assert!(fill_primary_button_rect(&mut restore_failure, &rect, requested).is_err());
    assert_eq!(restore_failure.set_colors, [requested, previous]);
    assert_eq!(restore_failure.fill_calls, 1);

    let mut fill_failure = RecordingPrimaryButtonBrushBackend {
        color_results: VecDeque::from([previous, requested]),
        set_colors: Vec::new(),
        fill_calls: 0,
        fail_fill: true,
    };
    assert!(fill_primary_button_rect(&mut fill_failure, &rect, requested).is_err());
    assert_eq!(fill_failure.set_colors, [requested, previous]);
    assert_eq!(fill_failure.fill_calls, 1);
}

#[test]
fn a_successful_fill_restores_the_brush_and_reports_each_failure_kind() {
    let rect = LogicalRect::new(0, 0, 80, 32);
    let mut ok = RecordingPrimaryButtonBrushBackend {
        color_results: VecDeque::from([7, 9]),
        set_colors: Vec::new(),
        fill_calls: 0,
        fail_fill: false,
    };
    assert!(fill_primary_button_rect(&mut ok, &rect, 9).is_ok());
    assert_eq!(ok.set_colors, [9, 7]);

    let mut not_applied = RecordingPrimaryButtonBrushBackend {
        color_results: VecDeque::from([CLR_INVALID]),
        set_colors: Vec::new(),
        fill_calls: 0,
        fail_fill: false,
    };
    assert!(matches!(
        fill_primary_button_rect(&mut not_applied, &rect, 9),
        Err(ButtonFillError::ColorNotApplied)
    ));
    let mut both_fail = RecordingPrimaryButtonBrushBackend {
        color_results: VecDeque::from([7, CLR_INVALID]),
        set_colors: Vec::new(),
        fill_calls: 0,
        fail_fill: true,
    };
    assert!(matches!(
        fill_primary_button_rect(&mut both_fail, &rect, 9),
        Err(ButtonFillError::ColorNotRestored)
    ));
    let mut fill_fails = RecordingPrimaryButtonBrushBackend {
        color_results: VecDeque::from([7, 9]),
        set_colors: Vec::new(),
        fill_calls: 0,
        fail_fill: true,
    };
    assert!(matches!(
        fill_primary_button_rect(&mut fill_fails, &rect, 9),
        Err(ButtonFillError::Fill(_))
    ));
}

#[derive(Default)]
struct FailingPrimaryPaintBackend {
    failure: Option<InjectedPrimaryPaintFailure>,
    acquired: usize,
    restore_attempts: usize,
    text_colors: Vec<u32>,
    events: Vec<String>,
}

#[derive(Clone, Copy, Debug, PartialEq, Eq)]
enum InjectedPrimaryPaintFailure {
    DefaultBorder,
    Border,
    Surface,
    SelectFont,
    SetBackground,
    SetTextColor,
    Text,
    Focus,
    RestoreTextColor,
    RestoreBackground,
    RestoreFont,
}

impl FailingPrimaryPaintBackend {
    fn complete(&self, stage: InjectedPrimaryPaintFailure) -> Result<(), String> {
        if self.failure == Some(stage) {
            Err("injected primary paint failure".to_string())
        } else {
            Ok(())
        }
    }
}

impl PrimaryButtonPaintBackend for FailingPrimaryPaintBackend {
    type Error = String;

    fn button_calls(&self) -> vstd::seq::Seq<ButtonCall<String>> {
        vstd::seq::Seq::empty()
    }

    fn fill_rect(&mut self, stage: PrimaryButtonPaintStage, rect: &LogicalRect, color: u32) -> Result<(), String> {
        self.events.push(format!("fill {stage:?} {} {} {} {} {color:06x}", rect.left, rect.top, rect.right, rect.bottom));
        self.complete(match stage {
            PrimaryButtonPaintStage::DefaultBorder => InjectedPrimaryPaintFailure::DefaultBorder,
            PrimaryButtonPaintStage::Border => InjectedPrimaryPaintFailure::Border,
            PrimaryButtonPaintStage::Surface => InjectedPrimaryPaintFailure::Surface,
        })
    }

    fn select_font(&mut self, _font: usize) -> Result<usize, String> {
        self.events.push("select font".to_string());
        self.complete(InjectedPrimaryPaintFailure::SelectFont)?;
        self.acquired += 1;
        Ok(11)
    }

    fn set_transparent_background(&mut self) -> Result<u32, String> {
        self.events.push("transparent".to_string());
        self.complete(InjectedPrimaryPaintFailure::SetBackground)?;
        self.acquired += 1;
        Ok(1)
    }

    fn set_text_color(&mut self, color: u32) -> Result<u32, String> {
        self.events.push("text color".to_string());
        self.complete(InjectedPrimaryPaintFailure::SetTextColor)?;
        self.text_colors.push(color);
        self.acquired += 1;
        Ok(0x0011_2233)
    }

    fn draw_text(&mut self, text: &str, _rect: &LogicalRect, _rtl: bool) -> Result<(), String> {
        self.events.push(format!("text {text}"));
        self.complete(InjectedPrimaryPaintFailure::Text)
    }

    fn draw_focus(&mut self, rect: &LogicalRect) -> Result<(), String> {
        self.events.push(format!("focus {} {} {} {}", rect.left, rect.top, rect.right, rect.bottom));
        self.complete(InjectedPrimaryPaintFailure::Focus)
    }

    fn restore_font(&mut self, font: usize) -> Result<(), String> {
        self.events.push(format!("restore font {font}"));
        self.restore_attempts += 1;
        self.complete(InjectedPrimaryPaintFailure::RestoreFont)
    }

    fn restore_background(&mut self, mode: u32) -> Result<(), String> {
        self.events.push(format!("restore background {mode}"));
        self.restore_attempts += 1;
        self.complete(InjectedPrimaryPaintFailure::RestoreBackground)
    }

    fn restore_text_color(&mut self, color: u32) -> Result<(), String> {
        self.events.push(format!("restore text {color:06x}"));
        self.restore_attempts += 1;
        self.complete(InjectedPrimaryPaintFailure::RestoreTextColor)
    }
}

#[test]
fn primary_button_paint_failure_at_every_required_stage_restores_and_uses_native_fallback() {
    let state = primary_button_paint_state(CDIS_DEFAULT | CDIS_FOCUS, true).unwrap();
    let rect = LogicalRect::new(0, 0, 120, 40);
    for failure in [
        InjectedPrimaryPaintFailure::DefaultBorder,
        InjectedPrimaryPaintFailure::Border,
        InjectedPrimaryPaintFailure::Surface,
        InjectedPrimaryPaintFailure::SelectFont,
        InjectedPrimaryPaintFailure::SetBackground,
        InjectedPrimaryPaintFailure::SetTextColor,
        InjectedPrimaryPaintFailure::Text,
        InjectedPrimaryPaintFailure::Focus,
        InjectedPrimaryPaintFailure::RestoreTextColor,
        InjectedPrimaryPaintFailure::RestoreBackground,
        InjectedPrimaryPaintFailure::RestoreFont,
    ] {
        let mut backend = FailingPrimaryPaintBackend { failure: Some(failure), ..Default::default() };

        assert!(!paint_primary_button(
            &mut backend,
            rect,
            "Add",
            1,
            DialogPalette::for_theme(DialogTheme::Light),
            0x00ff_ffff,
            false,
            state,
        ));
        assert_eq!(backend.restore_attempts, backend.acquired, "{failure:?}");
    }
}

#[test]
fn primary_button_paint_uses_the_semantic_contrasting_text_token() {
    let palette = DialogPalette::for_theme(DialogTheme::Light);
    let state = primary_button_paint_state(0, true).unwrap();
    let mut backend = FailingPrimaryPaintBackend::default();

    assert!(paint_primary_button(
        &mut backend,
        LogicalRect::new(0, 0, 120, 40),
        "Login",
        1,
        palette,
        0x00ff_ffff,
        false,
        state,
    ));
    assert_eq!(backend.text_colors, [0x00ff_ffff]);
}

#[test]
fn a_default_focused_button_paints_in_order_and_restores_newest_first() {
    let palette = DialogPalette::for_theme(DialogTheme::Light);
    let state = primary_button_paint_state(CDIS_DEFAULT | CDIS_FOCUS, true).unwrap();
    let mut backend = FailingPrimaryPaintBackend::default();

    assert!(paint_primary_button(
        &mut backend,
        LogicalRect::new(10, 20, 130, 60),
        "Add",
        1,
        palette,
        0x00ff_ffff,
        true,
        state,
    ));
    assert_eq!(
        backend.events,
        vec![
            format!("fill DefaultBorder 10 20 130 60 {:06x}", palette.focus.colorref),
            format!("fill Border 12 22 128 58 {:06x}", palette.border.colorref),
            format!("fill Surface 13 23 127 57 {:06x}", palette.healthy.colorref),
            "select font".to_string(),
            "transparent".to_string(),
            "text color".to_string(),
            "text Add".to_string(),
            "focus 14 24 126 56".to_string(),
            "restore text 112233".to_string(),
            "restore background 1".to_string(),
            "restore font 11".to_string(),
        ]
    );

    let mut untouched = FailingPrimaryPaintBackend::default();
    assert!(!paint_primary_button(&mut untouched, LogicalRect::new(0, 0, 0, 40), "Add", 1, palette, 0, false, state));
    assert!(!paint_primary_button(&mut untouched, LogicalRect::new(0, 0, 10, 40), "", 1, palette, 0, false, state));
    assert!(!paint_primary_button(&mut untouched, LogicalRect::new(0, 0, 10, 40), "Add", 0, palette, 0, false, state));
    assert!(untouched.events.is_empty());
}
