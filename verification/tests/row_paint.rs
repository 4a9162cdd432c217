use codex_peek::windows::design::{scale_logical, DialogPalette, DialogTheme, LogicalRect};
use codex_peek::windows::profile_dialog::{
    profile_manager_accessible_row_text, profile_manager_row_text, PROFILE_LABEL_MAX_UTF16_UNITS,
};
use codex_peek::windows::row_paint::{
    paint_profile_row_custom, paint_profile_row_custom_fill, paint_profile_row_fallback,
    paint_profile_row_with_fallback, restore_profile_row_text_state, ProfileRowFillStage,
    ProfileRowPaintBackend, ProfileRowPaintResources, ProfileRowTextStage, RowCall,
    RowPaintError,
};
use codex_peek::windows::dialog_paint::HeldSetting;
use codex_peek::windows::usage_popup::{DT_END_ELLIPSIS, DT_RIGHT, DT_RTLREADING};
use codex_peek::windows::{ProfileUsageStatus, UsageProfileView};
use codex_peek::{Language, UsageProfileId};

#[derive(Clone, Copy, Debug, PartialEq, Eq)]
enum InjectedProfileRowPaintFailure {
    Apply,
    Fill,
    Text,
    Focus,
}

#[derive(Clone, Debug, PartialEq)]
enum ProfileRowPaintEvent {
    Apply,
    Fill(ProfileRowFillStage),
    RestoreFill,
    FallbackFill,
    DefaultFont,
    SelectFont(usize),
    SetBackground,
    SetText(u32),
    Measure(String),
    Draw(ProfileRowTextStage, String, LogicalRect, u32),
    Focus,
    RestoreText,
    RestoreBackground,
    RestoreFont,
}

struct RecordingProfileRowPaintBackend {
    failure: Option<InjectedProfileRowPaintFailure>,
    fail_fallback: bool,
    marker_width: i32,
    fallback_started: bool,
    events: Vec<ProfileRowPaintEvent>,
}

impl RecordingProfileRowPaintBackend {
    fn new(failure: Option<InjectedProfileRowPaintFailure>, marker_width: i32) -> Self {
        Self { failure, fail_fallback: false, marker_width, fallback_started: false, events: Vec::new() }
    }

    fn custom_fails(&self, failure: InjectedProfileRowPaintFailure) -> bool {
        !self.fallback_started && self.failure == Some(failure)
    }
}

impl ProfileRowPaintBackend for RecordingProfileRowPaintBackend {
    type Error = String;

    fn row_calls(&self) -> vstd::seq::Seq<RowCall<String>> {
        vstd::seq::Seq::empty()
    }

    fn apply_fill_color(&mut self, _color: u32) -> Result<u32, String> {
        self.events.push(ProfileRowPaintEvent::Apply);
        if self.custom_fails(InjectedProfileRowPaintFailure::Apply) {
            Err("injected row brush apply failure".to_string())
        } else {
            Ok(0x0011_2233)
        }
    }

    fn fill_custom_rect(&mut self, stage: ProfileRowFillStage, _rect: &LogicalRect) -> Result<(), String> {
        self.events.push(ProfileRowPaintEvent::Fill(stage));
        if self.custom_fails(InjectedProfileRowPaintFailure::Fill) {
            Err("injected row FillRect failure".to_string())
        } else {
            Ok(())
        }
    }

    fn restore_fill_color(&mut self, _color: u32) -> Result<(), String> {
        self.events.push(ProfileRowPaintEvent::RestoreFill);
        Ok(())
    }

    fn fill_system_rect(&mut self, _rect: &LogicalRect, _selected: bool) -> Result<u32, String> {
        self.fallback_started = true;
        self.events.push(ProfileRowPaintEvent::FallbackFill);
        if self.fail_fallback {
            Err("injected system brush failure".to_string())
        } else {
            Ok(0x00aa_bbcc)
        }
    }

    fn default_gui_font(&mut self) -> Result<usize, String> {
        self.events.push(ProfileRowPaintEvent::DefaultFont);
        Ok(99)
    }

    fn select_font(&mut self, font: usize) -> Result<usize, String> {
        self.events.push(ProfileRowPaintEvent::SelectFont(font));
        Ok(77)
    }

    fn set_transparent_background(&mut self) -> Result<u32, String> {
        self.events.push(ProfileRowPaintEvent::SetBackground);
        Ok(1)
    }

    fn set_text_color(&mut self, color: u32) -> Result<u32, String> {
        self.events.push(ProfileRowPaintEvent::SetText(color));
        Ok(0x0033_2211)
    }

    fn measure_text_width(&mut self, text: &str) -> Result<i32, String> {
        self.events.push(ProfileRowPaintEvent::Measure(text.to_string()));
        Ok(self.marker_width)
    }

    fn draw_text(&mut self, stage: ProfileRowTextStage, text: &str, rect: &LogicalRect, format: u32) -> Result<(), String> {
        self.events.push(ProfileRowPaintEvent::Draw(stage, text.to_string(), *rect, format));
        if stage == ProfileRowTextStage::Name && self.custom_fails(InjectedProfileRowPaintFailure::Text) {
            Err("injected row DrawText failure".to_string())
        } else {
            Ok(())
        }
    }

    fn draw_focus(&mut self, _rect: &LogicalRect) -> Result<(), String> {
        self.events.push(ProfileRowPaintEvent::Focus);
        if self.custom_fails(InjectedProfileRowPaintFailure::Focus) {
            Err("injected row focus failure".to_string())
        } else {
            Ok(())
        }
    }

    fn restore_font(&mut self, _font: usize) -> Result<(), String> {
        self.events.push(ProfileRowPaintEvent::RestoreFont);
        Ok(())
    }

    fn restore_background(&mut self, _mode: u32) -> Result<(), String> {
        self.events.push(ProfileRowPaintEvent::RestoreBackground);
        Ok(())
    }

    fn restore_text_color(&mut self, _color: u32) -> Result<(), String> {
        self.events.push(ProfileRowPaintEvent::RestoreText);
        Ok(())
    }
}

fn row_paint_fixture() -> (UsageProfileView, codex_peek::windows::profile_dialog::ProfileManagerRowText, String) {
    let profile = UsageProfileView {
        id: UsageProfileId::System,
        label: "W".repeat(PROFILE_LABEL_MAX_UTF16_UNITS),
        summary: "72% remaining".to_string(),
        details: String::new(),
        selected: true,
        login_required: false,
        used_percent: Some(28),
        usage_status: Some(ProfileUsageStatus::Healthy),
        managed: false,
    };
    let copy = profile_manager_row_text(&profile, Language::English);
    let accessible = profile_manager_accessible_row_text(&profile, Language::English);
    (profile, copy, accessible)
}

fn resources(dpi: u32) -> ProfileRowPaintResources {
    ProfileRowPaintResources { dpi, palette: DialogPalette::for_theme(DialogTheme::Light), body_font: 1 }
}

#[test]
fn profile_row_custom_apply_fill_text_and_focus_failures_restore_before_stock_fallback() {
    let (profile, copy, accessible) = row_paint_fixture();
    for failure in [
        InjectedProfileRowPaintFailure::Apply,
        InjectedProfileRowPaintFailure::Fill,
        InjectedProfileRowPaintFailure::Text,
        InjectedProfileRowPaintFailure::Focus,
    ] {
        let mut backend = RecordingProfileRowPaintBackend::new(Some(failure), 84);

        assert!(paint_profile_row_with_fallback(
            &mut backend,
            LogicalRect::new(0, 0, 220, 56),
            &profile,
            &copy,
            &accessible,
            resources(96),
            false,
            true,
            true,
        ));

        let fallback = backend
            .events
            .iter()
            .position(|event| *event == ProfileRowPaintEvent::FallbackFill)
            .expect("custom failure must enter stock fallback");
        let before_fallback = &backend.events[..fallback];
        assert_eq!(backend.events.get(fallback + 1), Some(&ProfileRowPaintEvent::DefaultFont));
        assert_eq!(backend.events.get(fallback + 2), Some(&ProfileRowPaintEvent::SelectFont(99)));
        if matches!(failure, InjectedProfileRowPaintFailure::Text | InjectedProfileRowPaintFailure::Focus) {
            assert!(before_fallback.ends_with(&[
                ProfileRowPaintEvent::RestoreText,
                ProfileRowPaintEvent::RestoreBackground,
                ProfileRowPaintEvent::RestoreFont,
            ]));
        }
        if failure == InjectedProfileRowPaintFailure::Fill {
            assert!(before_fallback.ends_with(&[ProfileRowPaintEvent::RestoreFill]));
        }
        assert!(backend.events.iter().any(|event| matches!(
            event,
            ProfileRowPaintEvent::Draw(ProfileRowTextStage::Fallback, text, _, _) if text == &accessible
        )));
    }
}

#[test]
fn profile_row_is_not_handled_when_custom_and_stock_fallback_both_fail() {
    let (profile, copy, accessible) = row_paint_fixture();
    let mut backend = RecordingProfileRowPaintBackend::new(Some(InjectedProfileRowPaintFailure::Apply), 84);
    backend.fail_fallback = true;

    assert!(!paint_profile_row_with_fallback(
        &mut backend,
        LogicalRect::new(0, 0, 220, 56),
        &profile,
        &copy,
        &accessible,
        resources(96),
        false,
        false,
        false,
    ));
}

#[test]
fn max_length_ltr_and_arabic_rows_draw_markers_separately_without_ellipsis() {
    let (profile, copy, accessible) = row_paint_fixture();
    for dpi in [96, 120, 144, 168, 192] {
        for rtl in [false, true] {
            let marker_width = scale_logical(92, dpi);
            let mut backend = RecordingProfileRowPaintBackend::new(None, marker_width);
            let row_width = scale_logical(190, dpi);
            assert!(paint_profile_row_with_fallback(
                &mut backend,
                LogicalRect::new(0, 0, row_width, scale_logical(56, dpi)),
                &profile,
                &copy,
                &accessible,
                resources(dpi),
                rtl,
                false,
                false,
            ));

            let draws = backend
                .events
                .iter()
                .filter_map(|event| match event {
                    ProfileRowPaintEvent::Draw(stage, _, rect, format) => Some((*stage, *rect, *format)),
                    _ => None,
                })
                .collect::<Vec<_>>();
            let (_, name, name_format) =
                draws.iter().find(|(stage, _, _)| *stage == ProfileRowTextStage::Name).copied().unwrap();
            let (_, markers, marker_format) =
                draws.iter().find(|(stage, _, _)| *stage == ProfileRowTextStage::Markers).copied().unwrap();
            assert!(name.right <= markers.left || markers.right <= name.left);
            assert_ne!(name_format & DT_END_ELLIPSIS, 0);
            assert_eq!(marker_format & DT_END_ELLIPSIS, 0);
            if rtl {
                assert_eq!(markers.left, scale_logical(16, dpi));
                assert_ne!(marker_format & (DT_RTLREADING | DT_RIGHT), 0);
            } else {
                assert!(markers.right > name.right);
                assert_eq!(marker_format & (DT_RTLREADING | DT_RIGHT), 0);
            }
        }
    }
}

#[test]
fn a_healthy_selected_row_paints_every_fill_and_text_in_order() {
    let (profile, copy, _) = row_paint_fixture();
    let mut backend = RecordingProfileRowPaintBackend::new(None, 84);
    let visuals = resources(96);
    assert!(paint_profile_row_custom(&mut backend, LogicalRect::new(0, 0, 220, 56), &profile, &copy, visuals, false, true, true).is_ok());
    let marker_text = copy.markers.join(" · ");
    let name = copy.name.clone();
    let summary = copy.summary.clone();
    let stages: Vec<ProfileRowPaintEvent> = backend
        .events
        .iter()
        .filter(|event| !matches!(event, ProfileRowPaintEvent::Draw(..)))
        .cloned()
        .collect();
    assert_eq!(
        stages,
        vec![
            ProfileRowPaintEvent::Apply,
            ProfileRowPaintEvent::Fill(ProfileRowFillStage::Surface),
            ProfileRowPaintEvent::RestoreFill,
            ProfileRowPaintEvent::Apply,
            ProfileRowPaintEvent::Fill(ProfileRowFillStage::SelectionEdge),
            ProfileRowPaintEvent::RestoreFill,
            ProfileRowPaintEvent::Apply,
            ProfileRowPaintEvent::Fill(ProfileRowFillStage::ProgressTrack),
            ProfileRowPaintEvent::RestoreFill,
            ProfileRowPaintEvent::Apply,
            ProfileRowPaintEvent::Fill(ProfileRowFillStage::ProgressFill),
            ProfileRowPaintEvent::RestoreFill,
            ProfileRowPaintEvent::SelectFont(1),
            ProfileRowPaintEvent::SetBackground,
            ProfileRowPaintEvent::SetText(visuals.palette.text.colorref),
            ProfileRowPaintEvent::Measure(marker_text.clone()),
            ProfileRowPaintEvent::SetText(visuals.palette.secondary_text.colorref),
            ProfileRowPaintEvent::Focus,
            ProfileRowPaintEvent::RestoreText,
            ProfileRowPaintEvent::RestoreBackground,
            ProfileRowPaintEvent::RestoreFont,
        ]
    );
    let texts: Vec<(ProfileRowTextStage, String)> = backend
        .events
        .iter()
        .filter_map(|event| match event {
            ProfileRowPaintEvent::Draw(stage, text, _, _) => Some((*stage, text.clone())),
            _ => None,
        })
        .collect();
    assert_eq!(
        texts,
        vec![
            (ProfileRowTextStage::Name, name),
            (ProfileRowTextStage::Markers, marker_text),
            (ProfileRowTextStage::Summary, summary),
        ]
    );
}

#[test]
fn an_empty_row_or_null_font_is_an_invalid_target_and_requests_nothing() {
    let (profile, copy, _) = row_paint_fixture();
    let mut backend = RecordingProfileRowPaintBackend::new(None, 84);
    assert!(matches!(
        paint_profile_row_custom(&mut backend, LogicalRect::new(0, 0, 0, 56), &profile, &copy, resources(96), false, false, false),
        Err(RowPaintError::InvalidTarget)
    ));
    let mut no_font = resources(96);
    no_font.body_font = 0;
    assert!(matches!(
        paint_profile_row_custom(&mut backend, LogicalRect::new(0, 0, 220, 56), &profile, &copy, no_font, false, false, false),
        Err(RowPaintError::InvalidTarget)
    ));
    assert!(backend.events.is_empty());
}

#[test]
fn fills_skip_empty_rectangles_and_restore_after_a_failed_fill() {
    let mut backend = RecordingProfileRowPaintBackend::new(Some(InjectedProfileRowPaintFailure::Fill), 84);
    assert!(paint_profile_row_custom_fill(&mut backend, ProfileRowFillStage::Surface, &LogicalRect::new(5, 5, 5, 9), 1).is_ok());
    assert!(backend.events.is_empty());
    assert!(paint_profile_row_custom_fill(&mut backend, ProfileRowFillStage::Surface, &LogicalRect::new(0, 0, 5, 9), 1).is_err());
    assert_eq!(
        backend.events,
        vec![
            ProfileRowPaintEvent::Apply,
            ProfileRowPaintEvent::Fill(ProfileRowFillStage::Surface),
            ProfileRowPaintEvent::RestoreFill,
        ]
    );
}

#[test]
fn the_fallback_draws_the_accessible_text_in_the_system_colors() {
    let mut backend = RecordingProfileRowPaintBackend::new(None, 84);
    assert!(paint_profile_row_fallback(&mut backend, LogicalRect::new(0, 0, 100, 20), "Work — ready", true, true, true).is_ok());
    assert_eq!(backend.events[0], ProfileRowPaintEvent::FallbackFill);
    assert_eq!(backend.events[1], ProfileRowPaintEvent::DefaultFont);
    assert_eq!(backend.events[2], ProfileRowPaintEvent::SelectFont(99));
    assert_eq!(backend.events[4], ProfileRowPaintEvent::SetText(0x00aa_bbcc));
    match &backend.events[5] {
        ProfileRowPaintEvent::Draw(ProfileRowTextStage::Fallback, text, rect, _) => {
            assert_eq!(text, "Work — ready");
            assert_eq!(*rect, LogicalRect::new(2, 0, 98, 20));
        }
        other => panic!("expected the fallback text, got {other:?}"),
    }
    assert_eq!(backend.events[6], ProfileRowPaintEvent::Focus);
    assert_eq!(
        backend.events[7..],
        [ProfileRowPaintEvent::RestoreText, ProfileRowPaintEvent::RestoreBackground, ProfileRowPaintEvent::RestoreFont]
    );
}

#[test]
fn restores_run_newest_first() {
    let mut backend = RecordingProfileRowPaintBackend::new(None, 0);
    let held = vec![HeldSetting::Font(3), HeldSetting::Background(1), HeldSetting::TextColor(5)];
    assert!(restore_profile_row_text_state(&mut backend, &held).is_ok());
    assert_eq!(
        backend.events,
        vec![ProfileRowPaintEvent::RestoreText, ProfileRowPaintEvent::RestoreBackground, ProfileRowPaintEvent::RestoreFont]
    );
}
