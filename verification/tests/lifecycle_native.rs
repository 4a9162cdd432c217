use codex_peek::windows::lifecycle::{CleanupAction, NativeLifecycle, RecoveryDecision, RecoveryEvent};
use codex_peek::windows::native::{
    profile_dialog_ui_action, profile_login_confirmation_request, ProfileLoginDispatch,
};
use codex_peek::windows::profile_dialog::ProfileDialogAction;
use codex_peek::windows::{UiAction, UiSettings, UsageProfileView};
use codex_peek::{
    Language, LanguagePreference, StartupView, TaskbarDisplayMode, UpdatePresentationStatus,
    UsageProfileId,
};

#[test]
fn taskbar_owned_widget_is_recreated_even_when_hidden() {
    let mut lifecycle = NativeLifecycle::default();
    lifecycle.widget_created();
    lifecycle.widget_attached_to_taskbar();
    lifecycle.widget_destroyed();
    assert_eq!(
        lifecycle.recovery_decision(RecoveryEvent::Timer, false),
        RecoveryDecision::RecreateAndApply
    );

    let mut hidden = NativeLifecycle::default();
    hidden.widget_created();
    hidden.widget_destroyed();
    assert_eq!(hidden.recovery_decision(RecoveryEvent::Timer, false), RecoveryDecision::NoWidgetNeeded);
    assert_eq!(
        hidden.recovery_decision(RecoveryEvent::TaskbarCreated, true),
        RecoveryDecision::RecreateAndApply
    );
}

#[test]
fn existing_widget_is_reapplied_only_after_explorer_restarts() {
    let mut lifecycle = NativeLifecycle::default();
    lifecycle.widget_created();
    assert_eq!(lifecycle.recovery_decision(RecoveryEvent::TaskbarCreated, true), RecoveryDecision::Reapply);
    assert_eq!(lifecycle.recovery_decision(RecoveryEvent::Timer, true), RecoveryDecision::Keep);
}

#[test]
fn cleanup_releases_resources_in_safe_order() {
    let mut lifecycle = NativeLifecycle::default();
    assert!(lifecycle.cleanup_actions().is_empty());
    lifecycle.owner_created();
    lifecycle.widget_created();
    lifecycle.timer_started();
    lifecycle.tray_created();
    assert_eq!(
        lifecycle.cleanup_actions(),
        vec![
            CleanupAction::StopTimer,
            CleanupAction::RemoveTray,
            CleanupAction::DestroyWidget,
            CleanupAction::DestroyOwner
        ]
    );
    lifecycle.widget_destroyed();
    assert_eq!(
        lifecycle.cleanup_actions(),
        vec![CleanupAction::StopTimer, CleanupAction::RemoveTray, CleanupAction::DestroyOwner]
    );
}

fn profile(id: UsageProfileId, label: &str, selected: bool) -> UsageProfileView {
    UsageProfileView {
        id,
        label: label.to_string(),
        summary: String::new(),
        details: String::new(),
        selected,
        login_required: false,
        used_percent: None,
        usage_status: None,
        managed: id != UsageProfileId::System,
    }
}

fn settings(profiles: Vec<UsageProfileView>) -> UiSettings {
    UiSettings {
        widget_visible: true,
        refresh_interval_minutes: 5,
        start_with_windows: false,
        startup_view: StartupView::Widget,
        auto_auth_refresh: false,
        language: LanguagePreference::English,
        resolved_language: Language::English,
        taskbar_offset: 0,
        taskbar_display_mode: TaskbarDisplayMode::Primary,
        update_status: UpdatePresentationStatus::Idle,
        show_remaining_percent: false,
        usage_forecast_enabled: false,
        login_required: false,
        usage_profiles: profiles,
        usage_profile_mutation_pending: false,
    }
}

#[test]
fn dialog_results_keep_identity_and_label() {
    assert_eq!(
        profile_dialog_ui_action(ProfileDialogAction::Rename(UsageProfileId::Managed(3), "Team".to_string())),
        UiAction::RenameUsageProfile(UsageProfileId::Managed(3), "Team".to_string())
    );
    assert_eq!(
        profile_dialog_ui_action(ProfileDialogAction::Delete(UsageProfileId::Managed(4))),
        UiAction::DeleteUsageProfile(UsageProfileId::Managed(4))
    );
}

#[test]
fn top_level_login_is_pinned_to_the_selected_profile() {
    let settings = settings(vec![
        profile(UsageProfileId::System, "Main", false),
        profile(UsageProfileId::Managed(2), "Work", true),
    ]);
    let request = profile_login_confirmation_request(&UiAction::Login, &settings).unwrap();
    assert_eq!(request.label(), "Work");
    assert_eq!(
        request.resolve(true),
        Some(ProfileLoginDispatch::Confirmed(UiAction::LoginUsageProfile(UsageProfileId::Managed(2))))
    );
    let again = profile_login_confirmation_request(&UiAction::Login, &settings).unwrap();
    assert_eq!(again.resolve(false), None);
}

#[test]
fn cancelled_add_still_creates_the_profile_without_login() {
    let settings = settings(Vec::new());
    let action = UiAction::AddUsageProfile("New".to_string());
    let request = profile_login_confirmation_request(&action, &settings).unwrap();
    assert_eq!(request.label(), "New");
    assert_eq!(request.resolve(false), Some(ProfileLoginDispatch::Normal(action)));
}

#[test]
fn unknown_profiles_and_other_actions_need_no_confirmation() {
    let settings = settings(vec![profile(UsageProfileId::System, "Main", false)]);
    assert!(profile_login_confirmation_request(&UiAction::Login, &settings).is_none());
    assert!(profile_login_confirmation_request(
        &UiAction::LoginUsageProfile(UsageProfileId::Managed(9)),
        &settings
    )
    .is_none());
    assert!(profile_login_confirmation_request(&UiAction::Refresh, &settings).is_none());
    let relogin = profile_login_confirmation_request(
        &UiAction::LoginUsageProfile(UsageProfileId::System),
        &settings,
    )
    .unwrap();
    assert_eq!(relogin.label(), "Main");
}
