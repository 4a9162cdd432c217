use codex_peek::profile_label::{is_blank, normalize_profile_label, ProfileValidationError};
use codex_peek::windows::{
    initial_widget_visible, is_exact_github_tag_page, is_valid_chatgpt_login_url, menu_action,
    profile_taskbar_tooltip, resolve_windows_language, startup_plan, ForecastView, LaunchMode,
    StartupStep, UiAction, MENU_EXIT, MENU_INTERVAL_30, MENU_REFRESH,
};
use codex_peek::{localized_text, Language, LanguagePreference, LocalizationKey, StartupView};

#[test]
fn launch_mode_accepts_one_known_flag() {
    assert_eq!(LaunchMode::parse(&[]), Ok(LaunchMode::Normal));
    assert_eq!(LaunchMode::parse(&["--startup"]), Ok(LaunchMode::Startup));
    assert_eq!(LaunchMode::parse(&["--diagnose"]), Ok(LaunchMode::Diagnose));
    assert_eq!(LaunchMode::parse(&["--startup", "--diagnose"]), Err("multiple launch modes"));
    assert_eq!(LaunchMode::parse(&["--startup", "--verbose"]), Err("unsupported argument"));
}

#[test]
fn startup_takes_the_single_instance_lock_first() {
    assert_eq!(
        startup_plan(LaunchMode::Normal),
        vec![
            StartupStep::AcquireSingleInstance,
            StartupStep::LoadSettings,
            StartupStep::StartPoller,
            StartupStep::StartUpdateCheck,
            StartupStep::RunUi
        ]
    );
    assert_eq!(startup_plan(LaunchMode::Diagnose), vec![StartupStep::RunDiagnostics]);
}

#[test]
fn tray_only_startup_hides_the_widget_for_this_run() {
    assert!(!initial_widget_visible(LaunchMode::Startup, StartupView::TrayOnly, true));
    assert!(initial_widget_visible(LaunchMode::Normal, StartupView::TrayOnly, true));
    assert!(!initial_widget_visible(LaunchMode::Normal, StartupView::Widget, false));
}

#[test]
fn language_follows_the_choice_then_windows_then_english() {
    assert_eq!(resolve_windows_language(LanguagePreference::Korean, Some(0x0409), None), Language::Korean);
    assert_eq!(resolve_windows_language(LanguagePreference::Auto, Some(0x0412), None), Language::Korean);
    assert_eq!(resolve_windows_language(LanguagePreference::Auto, None, Some("pt_BR")), Language::PortugueseBrazil);
    assert_eq!(resolve_windows_language(LanguagePreference::Auto, None, Some("pt-PT")), Language::English);
    assert_eq!(resolve_windows_language(LanguagePreference::Auto, None, Some("de-AT")), Language::German);
    assert_eq!(resolve_windows_language(LanguagePreference::Auto, None, None), Language::English);
}

#[test]
fn release_pages_must_be_exact_tag_pages() {
    assert!(is_exact_github_tag_page("https://github.com/owner/repo/releases/tag/v1.2.3"));
    assert!(!is_exact_github_tag_page("https://github.com/owner/repo/releases/tag/"));
    assert!(!is_exact_github_tag_page("http://github.com/owner/repo/releases/tag/v1"));
    assert!(!is_exact_github_tag_page("https://github.com/owner/repo/releases/tag/v1/extra"));
}

#[test]
fn login_urls_are_limited_to_openai_hosts() {
    assert!(is_valid_chatgpt_login_url("https://auth.openai.com/authorize?client_id=x"));
    assert!(is_valid_chatgpt_login_url("https://ChatGPT.com/login"));
    assert!(!is_valid_chatgpt_login_url("https://chatgpt.com.evil.test/login"));
    assert!(!is_valid_chatgpt_login_url("https://user@chatgpt.com/login"));
    assert!(!is_valid_chatgpt_login_url("https://chatgpt.com:444/login"));
    assert!(!is_valid_chatgpt_login_url("http://chatgpt.com/login"));
    assert!(!is_valid_chatgpt_login_url("https://chatgpt.com/a\nb"));
    assert!(!is_valid_chatgpt_login_url("https:///login"));
    let long = format!("https://chatgpt.com/{}", "a".repeat(9000));
    assert!(!is_valid_chatgpt_login_url(&long));
}

#[test]
fn menu_identifiers_map_to_actions() {
    assert_eq!(menu_action(MENU_REFRESH), Some(UiAction::Refresh));
    assert_eq!(menu_action(MENU_INTERVAL_30), Some(UiAction::SetRefreshInterval(30)));
    assert_eq!(menu_action(MENU_EXIT), Some(UiAction::Exit));
    assert_eq!(menu_action(9999), None);
}

#[test]
fn forecast_lines_are_shown_except_when_hidden() {
    assert_eq!(ForecastView::Hidden.line(), None);
    assert_eq!(
        ForecastView::Collecting { line: "Collecting".to_string() }.line(),
        Some("Collecting")
    );
}

#[test]
fn tooltip_names_the_profile_and_the_unchanged_sign_in() {
    let tooltip = profile_taskbar_tooltip("Work", "Usage 10%", Language::English);
    assert_eq!(
        tooltip,
        format!(
            "{}: Work\n{}\n\nUsage 10%",
            localized_text(LocalizationKey::MenuUsageProfiles, Language::English),
            localized_text(LocalizationKey::UsageProfileCliUnchanged, Language::English)
        )
    );
}

#[test]
fn profile_labels_are_trimmed_and_validated() {
    assert_eq!(normalize_profile_label("  Work  ").unwrap(), "Work");
    assert_eq!(normalize_profile_label("   "), Err(ProfileValidationError::Empty));
    assert_eq!(normalize_profile_label(&"x".repeat(41)), Err(ProfileValidationError::TooLong));
    assert_eq!(normalize_profile_label(&"x".repeat(40)).unwrap(), "x".repeat(40));
    assert_eq!(normalize_profile_label("a/b"), Err(ProfileValidationError::InvalidCharacter));
    assert!(is_blank(" \t "));
    assert!(!is_blank(" a "));
}
