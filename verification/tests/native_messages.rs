use codex_peek::windows::native::{
    confirm_usage_forecast_clear_with_presenter, report_release_open_failure,
    show_diagnostic_summary_with_presenter, show_profile_dialog_error_with_presenter,
    show_update_notice_with_presenter, AvailableUpdate, NativeMessage, NativeMessagePresenter,
    UpdateCheckNotice, MB_ICONINFORMATION,
};
use codex_peek::windows::profile_dialog::{ProfileMessageRoute, IDOK, MB_ICONWARNING, MB_OK, MB_YESNO};
use codex_peek::windows::shell::{IDYES, MB_SETFOREGROUND, MB_TASKMODAL};
use codex_peek::Language;

const IDNO: i32 = 7;

#[derive(Debug, PartialEq, Eq)]
enum PresentedNativeMessage {
    Profile(ProfileMessageRoute),
    Application { owner: usize, message: String, title: String, style: u32 },
}

impl PresentedNativeMessage {
    fn owner(&self) -> usize {
        match self {
            Self::Profile(_) => 0,
            Self::Application { owner, .. } => *owner,
        }
    }
}

struct RecordingNativeMessagePresenter {
    messages: Vec<PresentedNativeMessage>,
    response: i32,
}

impl NativeMessagePresenter for RecordingNativeMessagePresenter {
    type Error = String;

    fn shown(&self) -> vstd::seq::Seq<NativeMessage<String>> {
        vstd::seq::Seq::empty()
    }

    fn present_profile(&mut self, route: ProfileMessageRoute, _owner: usize, _message: &str, _title: &str, _style: u32) -> Result<i32, String> {
        self.messages.push(PresentedNativeMessage::Profile(route));
        Ok(IDOK)
    }

    fn present_application(&mut self, owner: usize, message: &str, title: &str, style: u32) -> Result<i32, String> {
        self.messages.push(PresentedNativeMessage::Application {
            owner,
            message: message.to_owned(),
            title: title.to_owned(),
            style,
        });
        Ok(self.response)
    }
}

#[test]
fn native_profile_operation_error_uses_the_profile_message_boundary() {
    let mut presenter = RecordingNativeMessagePresenter { messages: Vec::new(), response: IDOK };

    show_profile_dialog_error_with_presenter(201, Language::English, &mut presenter);

    assert_eq!(presenter.messages, vec![PresentedNativeMessage::Profile(ProfileMessageRoute::NativeOperationError)]);
}

#[test]
fn usage_forecast_clear_confirmation_uses_the_owner_and_localized_warning() {
    let mut presenter = RecordingNativeMessagePresenter { messages: Vec::new(), response: IDYES };

    assert!(confirm_usage_forecast_clear_with_presenter(202, Language::English, &mut presenter).unwrap());

    let [PresentedNativeMessage::Application { owner, message, style, .. }] = presenter.messages.as_slice() else {
        panic!("expected one confirmation message");
    };
    assert_eq!(*owner, 202);
    assert_eq!(message, "Clear the usage forecast history?");
    assert_eq!(*style, MB_YESNO | MB_ICONWARNING | MB_SETFOREGROUND | MB_TASKMODAL);
}

#[test]
fn diagnostic_summary_stays_outside_the_profile_message_boundary() {
    let mut presenter = RecordingNativeMessagePresenter { messages: Vec::new(), response: IDOK };

    show_diagnostic_summary_with_presenter("Diagnostics", "Ready", &mut presenter).unwrap();

    assert_eq!(
        presenter.messages,
        vec![PresentedNativeMessage::Application {
            owner: 0,
            message: "Ready".to_owned(),
            title: "Diagnostics".to_owned(),
            style: MB_OK | MB_ICONINFORMATION,
        }]
    );
}

#[test]
fn update_notice_uses_the_owner_and_requires_explicit_confirmation() {
    let owner = 201;
    let update = UpdateCheckNotice::Available(AvailableUpdate {
        version: "2.0.0".to_owned(),
        release_url: "https://github.com/owner/repo/releases/tag/v2.0.0".to_owned(),
    });
    let mut presenter = RecordingNativeMessagePresenter { messages: Vec::new(), response: IDNO };
    let opened = show_update_notice_with_presenter(owner, &update, Language::English, &mut presenter)
        .unwrap()
        .map(str::to_owned);

    assert_eq!(opened, None);
    assert_eq!(presenter.messages.len(), 1);
    assert_eq!(presenter.messages[0].owner(), owner);

    presenter.messages.clear();
    presenter.response = IDYES;
    let opened = show_update_notice_with_presenter(owner, &update, Language::English, &mut presenter)
        .unwrap()
        .map(str::to_owned);

    assert_eq!(opened, Some("https://github.com/owner/repo/releases/tag/v2.0.0".to_owned()));
    match &presenter.messages[0] {
        PresentedNativeMessage::Application { message, style, .. } => {
            assert!(message.contains("2.0.0"));
            assert_eq!(*style & MB_YESNO, MB_YESNO);
        }
        other => panic!("unexpected {other:?}"),
    }
}

#[test]
fn update_notice_current_and_failed_results_use_localized_information() {
    for (notice, warning) in [(UpdateCheckNotice::Current, false), (UpdateCheckNotice::Failed, true)] {
        let mut presenter = RecordingNativeMessagePresenter { messages: Vec::new(), response: IDOK };
        assert_eq!(show_update_notice_with_presenter(201, &notice, Language::English, &mut presenter).unwrap(), None);

        assert_eq!(presenter.messages.len(), 1);
        let PresentedNativeMessage::Application { message, style, .. } = &presenter.messages[0] else {
            panic!("update result must use the application message boundary");
        };
        assert!(!message.is_empty());
        assert_eq!(style & MB_YESNO, 0);
        if warning {
            assert_eq!(style & MB_ICONWARNING, MB_ICONWARNING);
        }
    }
}

#[test]
fn a_failed_release_page_is_reported_as_a_warning() {
    let mut presenter = RecordingNativeMessagePresenter { messages: Vec::new(), response: IDOK };
    report_release_open_failure(9, Language::Korean, &mut presenter);
    match &presenter.messages[0] {
        PresentedNativeMessage::Application { owner, style, .. } => {
            assert_eq!(*owner, 9);
            assert_eq!(*style, MB_OK | MB_ICONWARNING | MB_SETFOREGROUND | MB_TASKMODAL);
        }
        other => panic!("unexpected {other:?}"),
    }
}
