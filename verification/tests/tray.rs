use codex_peek::windows::popup::{
    popup_palette, tray_item_paint, MenuArrow, ODS_GRAYED, ODS_SELECTED,
};
use codex_peek::windows::widget::Rect;
use codex_peek::windows::tray::{
    language_menu_label, tray_menu_entries, update_menu_text, usage_mode_menu_text,
    TrayMenuCommand, TrayMenuEntry,
};
use codex_peek::windows::{UiSettings, MENU_EXIT, MENU_INTERVAL_15, MENU_LOGIN, MENU_AUTH_REFRESH};
use codex_peek::{
    Language, LanguagePreference, StartupView, TaskbarDisplayMode, UpdatePresentationStatus,
};

#[test]
fn usage_mode_menu_describes_the_available_switch() {
    assert_eq!(usage_mode_menu_text(false, Language::Korean), "남은 사용량 표시");
    assert_eq!(usage_mode_menu_text(true, Language::Korean), "주간 사용량 표시");
    assert_eq!(usage_mode_menu_text(false, Language::English), "Show remaining usage");
    assert_eq!(usage_mode_menu_text(true, Language::English), "Show weekly usage");
}

fn settings(login_required: bool) -> UiSettings {
    UiSettings {
        widget_visible: true,
        refresh_interval_minutes: 15,
        start_with_windows: false,
        startup_view: StartupView::Widget,
        auto_auth_refresh: true,
        language: LanguagePreference::Auto,
        resolved_language: Language::English,
        taskbar_offset: 0,
        taskbar_display_mode: TaskbarDisplayMode::All,
        update_status: UpdatePresentationStatus::Idle,
        show_remaining_percent: false,
        usage_forecast_enabled: false,
        login_required,
        usage_profiles: Vec::new(),
        usage_profile_mutation_pending: false,
    }
}

fn command(entry: &TrayMenuEntry) -> Option<&TrayMenuCommand> {
    match entry {
        TrayMenuEntry::Command(command) => Some(command),
        TrayMenuEntry::Separator => None,
    }
}

#[test]
fn tray_menu_checks_the_current_interval_and_ends_with_exit() {
    let entries = tray_menu_entries(&settings(false));
    assert_eq!(entries.len(), 25);
    let interval = entries
        .iter()
        .filter_map(command)
        .find(|c| c.id == MENU_INTERVAL_15)
        .unwrap();
    assert!(interval.checked);
    assert_eq!(interval.label, "Refresh every 15 minutes");
    let last = command(entries.last().unwrap()).unwrap();
    assert_eq!(last.id, MENU_EXIT);
    assert_eq!(last.label, "Exit");
    assert!(entries.iter().filter_map(command).any(|c| c.id == MENU_AUTH_REFRESH));
    assert!(!entries.iter().filter_map(command).any(|c| c.id == MENU_LOGIN));
}

#[test]
fn tray_menu_offers_sign_in_first_when_it_is_required() {
    let entries = tray_menu_entries(&settings(true));
    assert_eq!(entries.len(), 25);
    assert_eq!(command(&entries[0]).unwrap().id, MENU_LOGIN);
    assert!(!entries.iter().filter_map(command).any(|c| c.id == MENU_AUTH_REFRESH));
}

#[test]
fn language_entries_keep_each_language_in_its_own_name() {
    assert_eq!(language_menu_label(LanguagePreference::Auto, Language::Korean), "언어: 자동");
    assert_eq!(language_menu_label(LanguagePreference::Auto, Language::English), "Language: automatic");
    assert_eq!(language_menu_label(LanguagePreference::Korean, Language::English), "Language: 한국어");
    assert_eq!(language_menu_label(LanguagePreference::English, Language::Korean), "언어: English");
    assert_eq!(language_menu_label(LanguagePreference::German, Language::French), "Language: Deutsch");
}

#[test]
fn update_entry_follows_the_check_status() {
    assert_eq!(update_menu_text(UpdatePresentationStatus::Idle, Language::English), "Check for updates");
    assert_ne!(
        update_menu_text(UpdatePresentationStatus::Checking, Language::English),
        update_menu_text(UpdatePresentationStatus::Idle, Language::English)
    );
}

#[test]
fn owner_drawn_items_mirror_their_glyph_text_and_arrow_for_right_to_left() {
    let palette = popup_palette(true);
    let item = Rect::new(0, 0, 200, 32);
    let ltr = tray_item_paint(item, 96, false, ODS_SELECTED, false, false, true, palette);
    let highlight = ltr.highlight.unwrap();
    assert_eq!(highlight.rect, Rect::new(4, 2, 196, 30));
    assert_eq!((highlight.corner, highlight.color), (7, palette.selection));
    assert_eq!(ltr.icon, Rect::new(12, 0, 32, 32));
    assert_eq!(ltr.text, Rect::new(44, 0, 172, 32));
    let arrow = ltr.arrow.unwrap();
    assert_eq!((arrow.rect, arrow.arrow), (Rect::new(172, 0, 188, 32), MenuArrow::Right));
    assert_eq!(arrow.arrow.glyph(), "\u{E76C}");
    assert_eq!((ltr.icon_color, ltr.text_color), (palette.text, palette.text));

    let rtl = tray_item_paint(item, 192, true, ODS_SELECTED | ODS_GRAYED, false, true, true, palette);
    assert!(rtl.highlight.is_none());
    assert_eq!(rtl.icon, Rect::new(136, 0, 176, 32));
    assert_eq!(rtl.text, Rect::new(56, 0, 112, 32));
    let arrow = rtl.arrow.unwrap();
    assert_eq!((arrow.rect, arrow.arrow), (Rect::new(24, 0, 80, 32), MenuArrow::Left));
    assert_eq!((rtl.icon_color, rtl.text_color), (palette.accent, palette.secondary_text));

    let plain = tray_item_paint(item, 96, false, 0, true, false, false, palette);
    assert!(plain.arrow.is_none() && plain.highlight.is_none());
    assert_eq!(plain.background, palette.background);
    assert_eq!((plain.icon_color, plain.text_color), (palette.secondary_text, palette.secondary_text));
}
