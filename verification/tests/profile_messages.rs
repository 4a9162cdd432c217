use codex_peek::windows::native::localized_window_title;
use codex_peek::windows::profile_dialog::{
    add_profile_prompt_result, cancel_add_dialog, handle_add_profile_prompt_result_with_presenter,
    show_add_dialog_warning_with_presenter, AddDialogState, AddProfilePromptCommand,
    AddProfilePromptState, ProfileDialogAction,
    confirm_profile_delete_with_presenter, confirm_profile_login_with_presenter,
    handle_manager_rename_result_with_presenter, show_safe_error_with_presenter,
    PresentedMessage, ProfileDialogController, ProfileMessagePresenter, ProfileMessageRoute,
    IDCANCEL, IDOK, MB_ICONERROR, MB_ICONWARNING, MB_OK, MB_OKCANCEL, MB_YESNO,
};
use codex_peek::windows::shell::IDYES;
use codex_peek::windows::UsageProfileView;
use codex_peek::{Language, LocalizationKey, UsageProfileId};

#[derive(Debug, PartialEq, Eq)]
struct PresentedProfileMessage {
    route: ProfileMessageRoute,
    owner: usize,
    message: String,
    title: String,
    style: u32,
}

struct RecordingProfileMessagePresenter {
    messages: Vec<PresentedProfileMessage>,
    result: Result<i32, String>,
}

impl RecordingProfileMessagePresenter {
    fn returning(result: i32) -> Self {
        Self { messages: Vec::new(), result: Ok(result) }
    }
}

impl ProfileMessagePresenter for RecordingProfileMessagePresenter {
    type Error = String;

    fn presented(&self) -> vstd::seq::Seq<PresentedMessage<String>> {
        vstd::seq::Seq::empty()
    }

    fn present(&mut self, route: ProfileMessageRoute, owner: usize, message: &str, title: &str, style: u32) -> Result<i32, String> {
        self.messages.push(PresentedProfileMessage {
            route,
            owner,
            message: message.to_string(),
            title: title.to_string(),
            style,
        });
        self.result.clone()
    }
}

#[test]
fn manager_validation_path_presents_the_validation_route() {
    let profile = UsageProfileView {
        id: UsageProfileId::Managed(7),
        label: "Work".to_string(),
        summary: "Ready".to_string(),
        details: String::new(),
        selected: true,
        login_required: false,
        used_percent: None,
        usage_status: None,
        managed: true,
    };
    let controller = ProfileDialogController::new(&[profile], false);
    let invalid_submission = controller.submit_rename("   ");
    let owner = 101;
    let mut presenter = RecordingProfileMessagePresenter::returning(IDOK);

    let result = handle_manager_rename_result_with_presenter(invalid_submission, owner, Language::English, &mut presenter);

    assert_eq!(result.unwrap(), None);
    assert_eq!(presenter.messages.len(), 1);
    assert_eq!(presenter.messages[0].route, ProfileMessageRoute::ValidationWarning);
    assert_eq!(presenter.messages[0].owner, owner);
    assert_eq!(presenter.messages[0].style, MB_OK | MB_ICONWARNING);
}

#[test]
fn a_valid_rename_passes_through_without_a_message() {
    let profile = UsageProfileView {
        id: UsageProfileId::Managed(7),
        label: "Work".to_string(),
        summary: "Ready".to_string(),
        details: String::new(),
        selected: true,
        login_required: false,
        used_percent: None,
        usage_status: None,
        managed: true,
    };
    let controller = ProfileDialogController::new(&[profile], false);
    let submission = controller.submit_rename("Personal");
    let expected = controller.submit_rename("Personal").unwrap();
    assert!(expected.is_some());
    let mut presenter = RecordingProfileMessagePresenter::returning(IDOK);
    let result = handle_manager_rename_result_with_presenter(submission, 5, Language::English, &mut presenter);
    assert_eq!(result.unwrap(), expected);
    assert!(presenter.messages.is_empty());

    let mut failing = RecordingProfileMessagePresenter { messages: Vec::new(), result: Err("closed".to_string()) };
    let result = handle_manager_rename_result_with_presenter(controller.submit_rename(""), 5, Language::English, &mut failing);
    assert_eq!(result, Err("closed".to_string()));
}

#[test]
fn login_confirmation_path_presents_the_login_route_and_maps_ok() {
    let owner = 104;
    let mut presenter = RecordingProfileMessagePresenter::returning(IDOK);

    let confirmed = confirm_profile_login_with_presenter(owner, "Work", Language::English, &mut presenter).unwrap();

    assert!(confirmed);
    assert_eq!(presenter.messages.len(), 1);
    assert_eq!(presenter.messages[0].route, ProfileMessageRoute::LoginConfirmation);
    assert!(presenter.messages[0].message.contains("Work"));
    assert_eq!(presenter.messages[0].style, MB_OKCANCEL | MB_ICONWARNING);
    assert_eq!(presenter.messages[0].title, "Login");

    let mut cancelled = RecordingProfileMessagePresenter::returning(IDCANCEL);
    assert!(!confirm_profile_login_with_presenter(owner, "Work", Language::English, &mut cancelled).unwrap());
}

#[test]
fn delete_confirmation_path_presents_the_delete_route_and_maps_yes() {
    let owner = 105;
    let mut presenter = RecordingProfileMessagePresenter::returning(IDYES);

    let confirmed = confirm_profile_delete_with_presenter(owner, "Work", Language::English, &mut presenter).unwrap();

    assert!(confirmed);
    assert_eq!(presenter.messages.len(), 1);
    assert_eq!(presenter.messages[0].route, ProfileMessageRoute::DeleteConfirmation);
    assert!(presenter.messages[0].message.contains("Work"));
    assert_eq!(presenter.messages[0].style, MB_YESNO | MB_ICONWARNING);

    let mut declined = RecordingProfileMessagePresenter::returning(IDOK);
    assert!(!confirm_profile_delete_with_presenter(owner, "Work", Language::English, &mut declined).unwrap());
}

#[test]
fn manager_safe_error_path_presents_the_manager_route() {
    let owner = 106;
    let mut presenter = RecordingProfileMessagePresenter::returning(IDCANCEL);

    show_safe_error_with_presenter(owner, Language::English, &mut presenter);

    assert_eq!(presenter.messages.len(), 1);
    assert_eq!(presenter.messages[0].route, ProfileMessageRoute::ManagerSafeError);
    assert_eq!(presenter.messages[0].style, MB_OK | MB_ICONERROR);
}

#[test]
fn the_window_title_is_a_terminated_wide_string() {
    let title = localized_window_title(Language::English);
    assert_eq!(title.last(), Some(&0));
    assert_eq!(String::from_utf16(&title[..title.len() - 1]).unwrap(), "CodexPeek");
}

fn add_state() -> AddDialogState {
    AddDialogState { language: Language::English, result: None, interaction: AddProfilePromptState::default() }
}

#[test]
fn add_validation_path_presents_the_validation_route_and_restores_commands() {
    let owner = 102;
    let mut state = add_state();
    assert!(state.interaction.begin_command());
    let mut presenter = RecordingProfileMessagePresenter::returning(IDOK);
    let result = add_profile_prompt_result("   ", AddProfilePromptCommand::Submit);

    assert!(!handle_add_profile_prompt_result_with_presenter(owner, &mut state, result, &mut presenter));

    assert!(state.interaction.accepts_commands());
    assert_eq!(presenter.messages.len(), 1);
    assert_eq!(presenter.messages[0].route, ProfileMessageRoute::ValidationWarning);
    assert_eq!(presenter.messages[0].owner, owner);
}

#[test]
fn add_safe_error_path_presents_the_add_prompt_route() {
    let owner = 103;
    let mut state = add_state();
    assert!(state.interaction.begin_command());
    let mut presenter = RecordingProfileMessagePresenter::returning(IDOK);

    show_add_dialog_warning_with_presenter(
        owner,
        &mut state,
        LocalizationKey::UsageProfileOperationFailed,
        MB_OK | MB_ICONERROR,
        &mut presenter,
    );

    assert_eq!(presenter.messages.len(), 1);
    assert_eq!(presenter.messages[0].route, ProfileMessageRoute::AddPromptSafeError);
}

#[test]
fn a_valid_name_closes_the_prompt_once_with_its_action() {
    let mut state = add_state();
    assert!(state.interaction.begin_command());
    let mut presenter = RecordingProfileMessagePresenter::returning(IDOK);
    let result = add_profile_prompt_result(" Work ", AddProfilePromptCommand::Submit);
    assert!(handle_add_profile_prompt_result_with_presenter(1, &mut state, result, &mut presenter));
    assert_eq!(state.result, Some(ProfileDialogAction::Add("Work".to_string())));
    assert!(presenter.messages.is_empty());
    let again = add_profile_prompt_result("Other", AddProfilePromptCommand::Submit);
    assert!(!handle_add_profile_prompt_result_with_presenter(1, &mut state, again, &mut presenter));
    assert_eq!(state.result, Some(ProfileDialogAction::Add("Work".to_string())));
    assert!(!cancel_add_dialog(&mut state));
}

#[test]
fn cancelling_closes_a_live_prompt_without_a_result() {
    let mut state = add_state();
    assert!(cancel_add_dialog(&mut state));
    assert_eq!(state.result, None);
    assert!(!state.interaction.accepts_commands());

    let mut busy = add_state();
    assert!(busy.interaction.begin_command());
    assert!(!cancel_add_dialog(&mut busy));
    let mut presenter = RecordingProfileMessagePresenter::returning(IDOK);
    let mut idle = add_state();
    show_add_dialog_warning_with_presenter(1, &mut idle, LocalizationKey::UsageProfileInvalidLabel, MB_OK, &mut presenter);
    assert!(presenter.messages.is_empty());
}
