//! Decisions at the boundary between the native dialogs and the application.

use vstd::prelude::*;

use super::profile_dialog::{
    ProfileDialogAction, ProfileMessageRoute, MB_ICONERROR, MB_ICONWARNING, MB_OK, MB_YESNO,
};
use super::shell::{update_dialog_opens_release, update_dialog_style, IDYES, MB_SETFOREGROUND, MB_TASKMODAL};
use super::{UiAction, UiSettings, UsageProfileView};
use crate::domain::{Language, UsageProfileId};
use crate::localization::{localized_text, text_of, LocalizationKey};
use crate::text::{string_from, utf16, wide};

verus! {

/// The application intent of a validated profile dialog result; the
/// identity and the normalized label are kept as they are.
pub open spec fn dialog_intent(action: ProfileDialogAction) -> UiAction {
    match action {
        ProfileDialogAction::Add(label) => UiAction::AddUsageProfile(label),
        ProfileDialogAction::Rename(id, label) => UiAction::RenameUsageProfile(id, label),
        ProfileDialogAction::Login(id) => UiAction::LoginUsageProfile(id),
        ProfileDialogAction::Logout(id) => UiAction::LogoutUsageProfile(id),
        ProfileDialogAction::Delete(id) => UiAction::DeleteUsageProfile(id),
    }
}

/// Turns a validated profile dialog result into the typed UI action; it does
/// no I/O, the backend schedules the work off the UI thread.
pub fn profile_dialog_ui_action(action: ProfileDialogAction) -> (r: UiAction)
    ensures
        r == dialog_intent(action),
{
    match action {
        ProfileDialogAction::Add(label) => UiAction::AddUsageProfile(label),
        ProfileDialogAction::Rename(id, label) => UiAction::RenameUsageProfile(id, label),
        ProfileDialogAction::Login(id) => UiAction::LoginUsageProfile(id),
        ProfileDialogAction::Logout(id) => UiAction::LogoutUsageProfile(id),
        ProfileDialogAction::Delete(id) => UiAction::DeleteUsageProfile(id),
    }
}

/// How a login confirmation is handed to the backend: as an ordinary action
/// that starts no browser login, or as one allowed only after confirmation.
#[derive(Debug, PartialEq, Eq)]
pub enum ProfileLoginDispatch {
    Normal(UiAction),
    Confirmed(UiAction),
}

/// One browser login confirmation: the label of the profile shown in the
/// prompt, the action on confirmation and the action, if any, on
/// cancellation (a cancelled add still creates the profile; a cancelled
/// re-login of an existing profile does nothing).
#[derive(Debug, PartialEq, Eq)]
pub struct ProfileLoginConfirmationRequest {
    label: String,
    confirmed_action: UiAction,
    cancelled_action: Option<UiAction>,
}

impl ProfileLoginConfirmationRequest {
    pub closed spec fn spec_label(&self) -> Seq<char> {
        self.label@
    }

    pub closed spec fn spec_confirmed_action(&self) -> UiAction {
        self.confirmed_action
    }

    pub closed spec fn spec_cancelled_action(&self) -> Option<UiAction> {
        self.cancelled_action
    }

    /// The label of the selected profile, shown in the prompt.
    pub fn label(&self) -> (r: &str)
        ensures
            r@ == self.spec_label(),
    {
        self.label.as_str()
    }

    /// The dispatch of the user's answer: `Confirmed` with the login action
    /// on confirmation; on cancellation an ordinary dispatch of the cancelled
    /// action, or `None` when there is none.
    pub fn resolve(self, confirmed: bool) -> (r: Option<ProfileLoginDispatch>)
        ensures
            confirmed ==> r == Some(ProfileLoginDispatch::Confirmed(self.spec_confirmed_action())),
            !confirmed ==> r == match self.spec_cancelled_action() {
                Some(a) => Some(ProfileLoginDispatch::Normal(a)),
                None => None::<ProfileLoginDispatch>,
            },
    {
        if confirmed {
            Some(ProfileLoginDispatch::Confirmed(self.confirmed_action))
        } else {
            match self.cancelled_action {
                Some(a) => Some(ProfileLoginDispatch::Normal(a)),
                None => None,
            }
        }
    }
}

/// The first selected profile.
pub open spec fn first_selected(profiles: Seq<UsageProfileView>) -> Option<UsageProfileView>
    decreases profiles.len(),
{
    if profiles.len() == 0 {
        None
    } else if profiles[0].selected {
        Some(profiles[0])
    } else {
        first_selected(profiles.drop_first())
    }
}

/// The first profile with the given identity.
pub open spec fn first_with_id(profiles: Seq<UsageProfileView>, id: UsageProfileId) -> Option<UsageProfileView>
    decreases profiles.len(),
{
    if profiles.len() == 0 {
        None
    } else if profiles[0].id == id {
        Some(profiles[0])
    } else {
        first_with_id(profiles.drop_first(), id)
    }
}

/// The confirmation that a login-starting action needs, as (label, action on
/// confirmation, action on cancellation).
pub open spec fn login_confirmation(action: UiAction, profiles: Seq<UsageProfileView>) -> Option<(Seq<char>, UiAction, Option<UiAction>)> {
    match action {
        UiAction::AddUsageProfile(label) => Some((label@, action, Some(action))),
        UiAction::Login => match first_selected(profiles) {
            Some(p) => Some((p.label@, UiAction::LoginUsageProfile(p.id), None)),
            None => None,
        },
        UiAction::LoginUsageProfile(id) => match first_with_id(profiles, id) {
            Some(p) => Some((p.label@, action, None)),
            None => None,
        },
        _ => None,
    }
}

/// The confirmation request of an action that can start a browser login:
/// adding an account, the top-level login (pinned to the profile selected
/// now) and a re-login from the manager; `None` for an unknown profile or
/// an action without login.
pub fn profile_login_confirmation_request(action: &UiAction, settings: &UiSettings) -> (r: Option<ProfileLoginConfirmationRequest>)
    ensures
        match (r, login_confirmation(*action, settings.usage_profiles@)) {
            (Some(req), Some((label, confirmed, cancelled))) => req.spec_label() == label
                && req.spec_confirmed_action() == confirmed && req.spec_cancelled_action() == cancelled,
            (None, None) => true,
            _ => false,
        },
{
    match action {
        UiAction::AddUsageProfile(label) => Some(ProfileLoginConfirmationRequest {
            label: label.clone(),
            confirmed_action: action.clone(),
            cancelled_action: Some(action.clone()),
        }),
        UiAction::Login => {
            let profiles = &settings.usage_profiles;
            let mut i: usize = 0;
            assert(profiles@.skip(0) =~= profiles@);
            while i < profiles.len()
                invariant
                    i <= profiles@.len(),
                    first_selected(profiles@) == first_selected(profiles@.skip(i as int)),
                    *action == UiAction::Login,
                    profiles@ == settings.usage_profiles@,
                decreases profiles.len() - i,
            {
                proof {
                    assert(profiles@.skip(i as int).drop_first() =~= profiles@.skip(i + 1));
                    assert(profiles@.skip(i as int)[0] == profiles@[i as int]);
                }
                if profiles[i].selected {
                    let profile = &profiles[i];
                    let label = profile.label.clone();
                    assert(label@ == profile.label@);
                    assert(first_selected(profiles@.skip(i as int)) == Some(profiles@[i as int]));
                    return Some(ProfileLoginConfirmationRequest {
                        label,
                        confirmed_action: UiAction::LoginUsageProfile(profile.id),
                        cancelled_action: None,
                    });
                }
                i += 1;
            }
            None
        },
        UiAction::LoginUsageProfile(id) => {
            let profiles = &settings.usage_profiles;
            let mut i: usize = 0;
            assert(profiles@.skip(0) =~= profiles@);
            while i < profiles.len()
                invariant
                    i <= profiles@.len(),
                    first_with_id(profiles@, *id) == first_with_id(profiles@.skip(i as int), *id),
                    *action == UiAction::LoginUsageProfile(*id),
                    profiles@ == settings.usage_profiles@,
                decreases profiles.len() - i,
            {
                proof {
                    assert(profiles@.skip(i as int).drop_first() =~= profiles@.skip(i + 1));
                    assert(profiles@.skip(i as int)[0] == profiles@[i as int]);
                }
                if profiles[i].id == *id {
                    let profile = &profiles[i];
                    let label = profile.label.clone();
                    assert(label@ == profile.label@);
                    assert(first_with_id(profiles@.skip(i as int), *id) == Some(profiles@[i as int]));
                    return Some(ProfileLoginConfirmationRequest {
                        label,
                        confirmed_action: action.clone(),
                        cancelled_action: None,
                    });
                }
                i += 1;
            }
            None
        },
        _ => None,
    }
}

/// The title of the application windows in `language`, as a NUL-terminated
/// UTF-16 string.
pub fn localized_window_title(language: Language) -> (title: Vec<u16>)
    ensures
        title@ == utf16(text_of(LocalizationKey::WindowTitle, language)).push(0u16),
{
    wide(localized_text(LocalizationKey::WindowTitle, language))
}

/// `MB_ICONINFORMATION`.
pub const MB_ICONINFORMATION: u32 = 0x0000_0040;

/// A message box shown by the native UI, with the button pressed: a profile
/// message on its route, or a plain application message.
pub enum NativeMessage<E> {
    Profile {
        route: ProfileMessageRoute,
        owner: usize,
        message: Seq<char>,
        title: Seq<char>,
        style: u32,
        answer: Result<i32, E>,
    },
    Application {
        owner: usize,
        message: Seq<char>,
        title: Seq<char>,
        style: u32,
        answer: Result<i32, E>,
    },
}

/// Where the native UI shows its messages: profile messages through their
/// centered boundary, other messages as plain message boxes. Each message
/// records itself, with the button pressed, at the end of `shown`.
pub trait NativeMessagePresenter {
    type Error;

    /// The messages shown so far, in order.
    spec fn shown(&self) -> Seq<NativeMessage<Self::Error>>;

    fn present_profile(&mut self, route: ProfileMessageRoute, owner: usize, message: &str, title: &str, style: u32) -> (r: Result<i32, Self::Error>)
        ensures
            final(self).shown() == old(self).shown().push(NativeMessage::Profile {
                route,
                owner,
                message: message@,
                title: title@,
                style,
                answer: r,
            }),
    ;

    fn present_application(&mut self, owner: usize, message: &str, title: &str, style: u32) -> (r: Result<i32, Self::Error>)
        ensures
            final(self).shown() == old(self).shown().push(NativeMessage::Application {
                owner,
                message: message@,
                title: title@,
                style,
                answer: r,
            }),
    ;
}

/// The last message is the one application message added.
pub open spec fn shows_application<E>(before: Seq<NativeMessage<E>>, after: Seq<NativeMessage<E>>, owner: usize, message: Seq<char>, title: Seq<char>, style: u32) -> bool {
    &&& after.len() == before.len() + 1
    &&& after.drop_last() == before
    &&& after.last() matches NativeMessage::Application { owner: o, message: m, title: t, style: s, .. }
    &&& o == owner && m == message && t == title && s == style
}

/// The button of an application message.
pub open spec fn answer_of<E>(shown: NativeMessage<E>) -> Result<i32, E> {
    match shown {
        NativeMessage::Profile { answer, .. } => answer,
        NativeMessage::Application { answer, .. } => answer,
    }
}

/// Reports a failed native profile operation through the profile message
/// boundary, on its own route; the answer is not used.
pub fn show_profile_dialog_error_with_presenter<P: NativeMessagePresenter>(owner: usize, language: Language, presenter: &mut P)
    ensures
        final(presenter).shown().len() == old(presenter).shown().len() + 1,
        final(presenter).shown().drop_last() == old(presenter).shown(),
        final(presenter).shown().last() matches NativeMessage::Profile { route, owner: o, message, title, style, .. }
            && route == ProfileMessageRoute::NativeOperationError && o == owner
            && message == text_of(LocalizationKey::UsageProfileOperationFailed, language)
            && title == text_of(LocalizationKey::WindowTitle, language) && style == MB_OK | MB_ICONERROR,
{
    let ghost before = presenter.shown();
    let _ = presenter.present_profile(
        ProfileMessageRoute::NativeOperationError,
        owner,
        localized_text(LocalizationKey::UsageProfileOperationFailed, language),
        localized_text(LocalizationKey::WindowTitle, language),
        MB_OK | MB_ICONERROR,
    );
    assert(presenter.shown().drop_last() =~= before);
}

/// Asks, in a task-modal warning owned by `owner`, whether to clear the
/// usage forecast history; `true` on Yes.
pub fn confirm_usage_forecast_clear_with_presenter<P: NativeMessagePresenter>(owner: usize, language: Language, presenter: &mut P) -> (r: Result<bool, P::Error>)
    ensures
        shows_application(
            old(presenter).shown(),
            final(presenter).shown(),
            owner,
            text_of(LocalizationKey::UsageForecastClearConfirm, language),
            text_of(LocalizationKey::WindowTitle, language),
            MB_YESNO | MB_ICONWARNING | MB_SETFOREGROUND | MB_TASKMODAL,
        ),
        r == match answer_of(final(presenter).shown().last()) {
            Ok(button) => Ok::<bool, P::Error>(button == IDYES),
            Err(e) => Err(e),
        },
{
    let ghost before = presenter.shown();
    let answer = presenter.present_application(
        owner,
        localized_text(LocalizationKey::UsageForecastClearConfirm, language),
        localized_text(LocalizationKey::WindowTitle, language),
        MB_YESNO | MB_ICONWARNING | MB_SETFOREGROUND | MB_TASKMODAL,
    );
    assert(presenter.shown().drop_last() =~= before);
    match answer {
        Ok(button) => Ok(button == IDYES),
        Err(e) => Err(e),
    }
}

/// Shows the diagnostic summary as a plain information message without an
/// owner, outside the profile boundary.
pub fn show_diagnostic_summary_with_presenter<P: NativeMessagePresenter>(title: &str, message: &str, presenter: &mut P) -> (r: Result<(), P::Error>)
    ensures
        shows_application(old(presenter).shown(), final(presenter).shown(), 0, message@, title@, MB_OK | MB_ICONINFORMATION),
        r == match answer_of(final(presenter).shown().last()) {
            Ok(_) => Ok::<(), P::Error>(()),
            Err(e) => Err(e),
        },
{
    let ghost before = presenter.shown();
    let answer = presenter.present_application(0, message, title, MB_OK | MB_ICONINFORMATION);
    assert(presenter.shown().drop_last() =~= before);
    match answer {
        Ok(_) => Ok(()),
        Err(e) => Err(e),
    }
}

/// A newer release, as the update check validated it.
pub struct AvailableUpdate {
    /// The version, as text.
    pub version: String,
    /// The release page.
    pub release_url: String,
}

/// What a user-started update check found.
pub enum UpdateCheckNotice {
    Current,
    Available(AvailableUpdate),
    Failed,
}

/// The text of an available update: the update notice with the version,
/// then the question whether to open the release page.
pub open spec fn available_text(version: Seq<char>, language: Language) -> Seq<char> {
    text_of(LocalizationKey::UpdateAvailable, language) + ": "@ + version + "\n\n"@ + text_of(LocalizationKey::UpdateAvailablePrompt, language)
}

/// The message, the style and the release page of an update notice.
pub open spec fn notice_message(notice: UpdateCheckNotice, language: Language) -> (Seq<char>, u32) {
    match notice {
        UpdateCheckNotice::Current => (text_of(LocalizationKey::UpdateCurrent, language), MB_OK | MB_ICONINFORMATION | MB_SETFOREGROUND | MB_TASKMODAL),
        UpdateCheckNotice::Available(update) => (available_text(update.version@, language), MB_YESNO | MB_ICONINFORMATION | MB_SETFOREGROUND | MB_TASKMODAL),
        UpdateCheckNotice::Failed => (text_of(LocalizationKey::UpdateFailedHelp, language), MB_OK | MB_ICONWARNING | MB_SETFOREGROUND | MB_TASKMODAL),
    }
}

/// Shows the result of a user-started update check in a task-modal message
/// owned by `owner`: up to date and failed are information and warning
/// messages with OK; an available update asks Yes or No. The answer is the
/// release page to open, only after an explicit Yes; the caller opens it
/// and, if that fails, calls `report_release_open_failure`.
pub fn show_update_notice_with_presenter<'a, P: NativeMessagePresenter>(
    owner: usize,
    notice: &'a UpdateCheckNotice,
    language: Language,
    presenter: &mut P,
) -> (r: Result<Option<&'a str>, P::Error>)
    ensures
        shows_application(
            old(presenter).shown(),
            final(presenter).shown(),
            owner,
            notice_message(*notice, language).0,
            text_of(LocalizationKey::WindowTitle, language),
            notice_message(*notice, language).1,
        ),
        match answer_of(final(presenter).shown().last()) {
            Err(e) => r == Err::<Option<&'a str>, P::Error>(e),
            Ok(button) => match *notice {
                UpdateCheckNotice::Available(update) => if button == IDYES {
                    r matches Ok(Some(url)) && url@ == update.release_url@
                } else {
                    r == Ok::<Option<&'a str>, P::Error>(None)
                },
                _ => r == Ok::<Option<&'a str>, P::Error>(None),
            },
        },
{
    let ghost before = presenter.shown();
    let (message, buttons, icon, release_url) = match notice {
        UpdateCheckNotice::Current => (
            string_from(localized_text(LocalizationKey::UpdateCurrent, language)),
            MB_OK,
            MB_ICONINFORMATION,
            None,
        ),
        UpdateCheckNotice::Available(update) => {
            let mut text = string_from(localized_text(LocalizationKey::UpdateAvailable, language));
            text.append(": ");
            text.append(update.version.as_str());
            text.append("\n\n");
            text.append(localized_text(LocalizationKey::UpdateAvailablePrompt, language));
            (text, MB_YESNO, MB_ICONINFORMATION, Some(update.release_url.as_str()))
        },
        UpdateCheckNotice::Failed => (
            string_from(localized_text(LocalizationKey::UpdateFailedHelp, language)),
            MB_OK,
            MB_ICONWARNING,
            None,
        ),
    };
    let style = update_dialog_style(buttons, icon);
    proof {
        assert(style == buttons | icon | MB_SETFOREGROUND | MB_TASKMODAL);
    }
    let answer = presenter.present_application(owner, message.as_str(), localized_text(LocalizationKey::WindowTitle, language), style);
    assert(presenter.shown().drop_last() =~= before);
    match answer {
        Err(e) => Err(e),
        Ok(button) => match release_url {
            Some(url) => if update_dialog_opens_release(button) {
                Ok(Some(url))
            } else {
                Ok(None)
            },
            None => Ok(None),
        },
    }
}

/// Tells, in a task-modal warning, that the release page could not be
/// opened; the answer is not used.
pub fn report_release_open_failure<P: NativeMessagePresenter>(owner: usize, language: Language, presenter: &mut P)
    ensures
        shows_application(
            old(presenter).shown(),
            final(presenter).shown(),
            owner,
            text_of(LocalizationKey::UpdateOpenFailed, language),
            text_of(LocalizationKey::WindowTitle, language),
            MB_OK | MB_ICONWARNING | MB_SETFOREGROUND | MB_TASKMODAL,
        ),
{
    let ghost before = presenter.shown();
    let _ = presenter.present_application(
        owner,
        localized_text(LocalizationKey::UpdateOpenFailed, language),
        localized_text(LocalizationKey::WindowTitle, language),
        MB_OK | MB_ICONWARNING | MB_SETFOREGROUND | MB_TASKMODAL,
    );
    assert(presenter.shown().drop_last() =~= before);
}

} // verus!
