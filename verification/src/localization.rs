//! The text catalog of the user interface.
//!
//! Korean has its own wording; every other language uses the English wording.

use vstd::prelude::*;

use crate::domain::Language;

verus! {

/// A translatable user-interface text.
#[derive(Clone, Copy, Debug, PartialEq, Eq, Structural)]
pub enum LocalizationKey {
    MenuUsageProfiles,
    UsageProfileCliUnchanged,
    MenuAddUsageProfile,
    UsageProfileRename,
    UsageProfileLogin,
    UsageProfileLogout,
    UsageProfileDelete,
    UsageProfileSystem,
    UsageProfileDisplayed,
    UsageProfileConfirmBrowserAccount,
    UsageProfileCliIdeUnchanged,
    UsageProfileDeleteConfirm,
    UsageProfileDeleteIrrecoverable,
    MenuLogin,
    MenuRefreshNow,
    MenuAutostart,
    MenuStartupWidgetChoice,
    MenuStartupTrayOnlyChoice,
    MenuAuthRefreshNow,
    MenuAuthRefresh,
    MenuDiagnostics,
    MenuHideWidget,
    MenuShowWidget,
    MenuTaskbarAll,
    MenuTaskbarPrimary,
    MenuExit,
    MenuUpdateCheck,
    UpdateChecking,
    UpdateAvailable,
    UpdateCurrent,
    UpdateFailed,
    MenuShowWeekly,
    MenuShowRemaining,
    RefreshEvery1Minute,
    RefreshEvery5Minutes,
    RefreshEvery10Minutes,
    RefreshEvery15Minutes,
    RefreshEvery30Minutes,
    WindowTitle,
    UsageProfileOperationFailed,
    UsageProfileInvalidLabel,
    UsageForecastClearConfirm,
    UpdateAvailablePrompt,
    UpdateFailedHelp,
    UpdateOpenFailed,
}

/// English wording of each text.
pub open spec fn english_text(key: LocalizationKey) -> Seq<char> {
    match key {
        LocalizationKey::MenuUsageProfiles => "Usage profiles"@,
        LocalizationKey::UsageProfileCliUnchanged => "Codex CLI and IDE sign-in are not changed."@,
        LocalizationKey::MenuAddUsageProfile => "Add usage profile"@,
        LocalizationKey::UsageProfileRename => "Rename"@,
        LocalizationKey::UsageProfileLogin => "Login"@,
        LocalizationKey::UsageProfileLogout => "Logout"@,
        LocalizationKey::UsageProfileDelete => "Delete"@,
        LocalizationKey::UsageProfileSystem => "Default Codex account"@,
        LocalizationKey::UsageProfileDisplayed => "Shown"@,
        LocalizationKey::UsageProfileConfirmBrowserAccount => "Confirm the intended ChatGPT account in the browser."@,
        LocalizationKey::UsageProfileCliIdeUnchanged => "Sign-in for terminals, IDEs and the Codex app does not change."@,
        LocalizationKey::UsageProfileDeleteConfirm => "Delete this usage profile and its local data?"@,
        LocalizationKey::UsageProfileDeleteIrrecoverable => "Deleted profile data cannot be recovered."@,
        LocalizationKey::MenuLogin => "Sign in to Codex"@,
        LocalizationKey::MenuRefreshNow => "Refresh now"@,
        LocalizationKey::MenuAutostart => "Start with Windows"@,
        LocalizationKey::MenuStartupWidgetChoice => "At startup: show widget"@,
        LocalizationKey::MenuStartupTrayOnlyChoice => "At startup: tray only"@,
        LocalizationKey::MenuAuthRefreshNow => "Refresh authentication"@,
        LocalizationKey::MenuAuthRefresh => "Refresh authentication automatically"@,
        LocalizationKey::MenuDiagnostics => "Diagnostics"@,
        LocalizationKey::MenuHideWidget => "Hide widget"@,
        LocalizationKey::MenuShowWidget => "Show widget"@,
        LocalizationKey::MenuTaskbarAll => "Widget: all monitors"@,
        LocalizationKey::MenuTaskbarPrimary => "Widget: primary monitor only"@,
        LocalizationKey::MenuExit => "Exit"@,
        LocalizationKey::MenuUpdateCheck => "Check for updates"@,
        LocalizationKey::UpdateChecking => "Checking for updates"@,
        LocalizationKey::UpdateAvailable => "Update available"@,
        LocalizationKey::UpdateCurrent => "Up to date"@,
        LocalizationKey::UpdateFailed => "Update check failed"@,
        LocalizationKey::MenuShowWeekly => "Show weekly usage"@,
        LocalizationKey::MenuShowRemaining => "Show remaining usage"@,
        LocalizationKey::RefreshEvery1Minute => "Refresh every 1 minute"@,
        LocalizationKey::RefreshEvery5Minutes => "Refresh every 5 minutes"@,
        LocalizationKey::RefreshEvery10Minutes => "Refresh every 10 minutes"@,
        LocalizationKey::RefreshEvery15Minutes => "Refresh every 15 minutes"@,
        LocalizationKey::RefreshEvery30Minutes => "Refresh every 30 minutes"@,
        LocalizationKey::WindowTitle => "CodexPeek"@,
        LocalizationKey::UsageProfileOperationFailed => "The usage profile could not be changed. Try again."@,
        LocalizationKey::UsageProfileInvalidLabel => "Enter a valid profile name."@,
        LocalizationKey::UsageForecastClearConfirm => "Clear the usage forecast history?"@,
        LocalizationKey::UpdateAvailablePrompt => "Open the release page?"@,
        LocalizationKey::UpdateFailedHelp => "The update check failed. Check your connection and try again later."@,
        LocalizationKey::UpdateOpenFailed => "The release page could not be opened."@,
    }
}

/// Korean wording of each text.
pub open spec fn korean_text(key: LocalizationKey) -> Seq<char> {
    match key {
        LocalizationKey::MenuUsageProfiles => "사용량 프로필"@,
        LocalizationKey::UsageProfileCliUnchanged => "Codex CLI와 IDE 로그인은 바뀌지 않습니다."@,
        LocalizationKey::MenuAddUsageProfile => "사용량 프로필 추가"@,
        LocalizationKey::UsageProfileRename => "이름 변경"@,
        LocalizationKey::UsageProfileLogin => "로그인"@,
        LocalizationKey::UsageProfileLogout => "로그아웃"@,
        LocalizationKey::UsageProfileDelete => "삭제"@,
        LocalizationKey::UsageProfileSystem => "기본 Codex 계정"@,
        LocalizationKey::UsageProfileDisplayed => "표시 중"@,
        LocalizationKey::UsageProfileConfirmBrowserAccount => "브라우저에서 사용할 ChatGPT 계정을 확인하세요."@,
        LocalizationKey::UsageProfileCliIdeUnchanged => "터미널, IDE, Codex 앱의 로그인은 바뀌지 않습니다."@,
        LocalizationKey::UsageProfileDeleteConfirm => "이 사용량 프로필과 로컬 데이터를 삭제할까요?"@,
        LocalizationKey::UsageProfileDeleteIrrecoverable => "삭제한 프로필 데이터는 복구할 수 없습니다."@,
        LocalizationKey::MenuLogin => "Codex 로그인"@,
        LocalizationKey::MenuRefreshNow => "지금 새로 고침"@,
        LocalizationKey::MenuAutostart => "Windows 시작 시 실행"@,
        LocalizationKey::MenuStartupWidgetChoice => "시작 시: 위젯 표시"@,
        LocalizationKey::MenuStartupTrayOnlyChoice => "시작 시: 트레이만"@,
        LocalizationKey::MenuAuthRefreshNow => "인증 새로 고침"@,
        LocalizationKey::MenuAuthRefresh => "인증 자동 새로 고침"@,
        LocalizationKey::MenuDiagnostics => "진단"@,
        LocalizationKey::MenuHideWidget => "위젯 숨기기"@,
        LocalizationKey::MenuShowWidget => "위젯 표시"@,
        LocalizationKey::MenuTaskbarAll => "위젯: 모든 모니터"@,
        LocalizationKey::MenuTaskbarPrimary => "위젯: 주 모니터만"@,
        LocalizationKey::MenuExit => "종료"@,
        LocalizationKey::MenuUpdateCheck => "업데이트 확인"@,
        LocalizationKey::UpdateChecking => "업데이트 확인 중"@,
        LocalizationKey::UpdateAvailable => "업데이트 있음"@,
        LocalizationKey::UpdateCurrent => "최신 버전"@,
        LocalizationKey::UpdateFailed => "업데이트 확인 실패"@,
        LocalizationKey::MenuShowWeekly => "주간 사용량 표시"@,
        LocalizationKey::MenuShowRemaining => "남은 사용량 표시"@,
        LocalizationKey::RefreshEvery1Minute => "1분마다 새로 고침"@,
        LocalizationKey::RefreshEvery5Minutes => "5분마다 새로 고침"@,
        LocalizationKey::RefreshEvery10Minutes => "10분마다 새로 고침"@,
        LocalizationKey::RefreshEvery15Minutes => "15분마다 새로 고침"@,
        LocalizationKey::RefreshEvery30Minutes => "30분마다 새로 고침"@,
        LocalizationKey::WindowTitle => "CodexPeek"@,
        LocalizationKey::UsageProfileOperationFailed => "사용량 프로필을 변경하지 못했습니다. 다시 시도하세요."@,
        LocalizationKey::UsageProfileInvalidLabel => "올바른 프로필 이름을 입력하세요."@,
        LocalizationKey::UsageForecastClearConfirm => "사용량 소진 예측 기록을 삭제할까요?"@,
        LocalizationKey::UpdateAvailablePrompt => "릴리스 페이지를 열까요?"@,
        LocalizationKey::UpdateFailedHelp => "업데이트를 확인하지 못했습니다. 연결을 확인한 뒤 나중에 다시 시도하세요."@,
        LocalizationKey::UpdateOpenFailed => "릴리스 페이지를 열지 못했습니다."@,
    }
}

/// The wording of `key` in `language`.
pub open spec fn text_of(key: LocalizationKey, language: Language) -> Seq<char> {
    if language == Language::Korean {
        korean_text(key)
    } else {
        english_text(key)
    }
}

fn english(key: LocalizationKey) -> (s: &'static str)
    ensures
        s@ == english_text(key),
{
    match key {
        LocalizationKey::MenuUsageProfiles => "Usage profiles",
        LocalizationKey::UsageProfileCliUnchanged => "Codex CLI and IDE sign-in are not changed.",
        LocalizationKey::MenuAddUsageProfile => "Add usage profile",
        LocalizationKey::UsageProfileRename => "Rename",
        LocalizationKey::UsageProfileLogin => "Login",
        LocalizationKey::UsageProfileLogout => "Logout",
        LocalizationKey::UsageProfileDelete => "Delete",
        LocalizationKey::UsageProfileSystem => "Default Codex account",
        LocalizationKey::UsageProfileDisplayed => "Shown",
        LocalizationKey::UsageProfileConfirmBrowserAccount => "Confirm the intended ChatGPT account in the browser.",
        LocalizationKey::UsageProfileCliIdeUnchanged => "Sign-in for terminals, IDEs and the Codex app does not change.",
        LocalizationKey::UsageProfileDeleteConfirm => "Delete this usage profile and its local data?",
        LocalizationKey::UsageProfileDeleteIrrecoverable => "Deleted profile data cannot be recovered.",
        LocalizationKey::MenuLogin => "Sign in to Codex",
        LocalizationKey::MenuRefreshNow => "Refresh now",
        LocalizationKey::MenuAutostart => "Start with Windows",
        LocalizationKey::MenuStartupWidgetChoice => "At startup: show widget",
        LocalizationKey::MenuStartupTrayOnlyChoice => "At startup: tray only",
        LocalizationKey::MenuAuthRefreshNow => "Refresh authentication",
        LocalizationKey::MenuAuthRefresh => "Refresh authentication automatically",
        LocalizationKey::MenuDiagnostics => "Diagnostics",
        LocalizationKey::MenuHideWidget => "Hide widget",
        LocalizationKey::MenuShowWidget => "Show widget",
        LocalizationKey::MenuTaskbarAll => "Widget: all monitors",
        LocalizationKey::MenuTaskbarPrimary => "Widget: primary monitor only",
        LocalizationKey::MenuExit => "Exit",
        LocalizationKey::MenuUpdateCheck => "Check for updates",
        LocalizationKey::UpdateChecking => "Checking for updates",
        LocalizationKey::UpdateAvailable => "Update available",
        LocalizationKey::UpdateCurrent => "Up to date",
        LocalizationKey::UpdateFailed => "Update check failed",
        LocalizationKey::MenuShowWeekly => "Show weekly usage",
        LocalizationKey::MenuShowRemaining => "Show remaining usage",
        LocalizationKey::RefreshEvery1Minute => "Refresh every 1 minute",
        LocalizationKey::RefreshEvery5Minutes => "Refresh every 5 minutes",
        LocalizationKey::RefreshEvery10Minutes => "Refresh every 10 minutes",
        LocalizationKey::RefreshEvery15Minutes => "Refresh every 15 minutes",
        LocalizationKey::RefreshEvery30Minutes => "Refresh every 30 minutes",
        LocalizationKey::WindowTitle => "CodexPeek",
        LocalizationKey::UsageProfileOperationFailed => "The usage profile could not be changed. Try again.",
        LocalizationKey::UsageProfileInvalidLabel => "Enter a valid profile name.",
        LocalizationKey::UsageForecastClearConfirm => "Clear the usage forecast history?",
        LocalizationKey::UpdateAvailablePrompt => "Open the release page?",
        LocalizationKey::UpdateFailedHelp => "The update check failed. Check your connection and try again later.",
        LocalizationKey::UpdateOpenFailed => "The release page could not be opened.",
    }
}

fn korean(key: LocalizationKey) -> (s: &'static str)
    ensures
        s@ == korean_text(key),
{
    match key {
        LocalizationKey::MenuUsageProfiles => "사용량 프로필",
        LocalizationKey::UsageProfileCliUnchanged => "Codex CLI와 IDE 로그인은 바뀌지 않습니다.",
        LocalizationKey::MenuAddUsageProfile => "사용량 프로필 추가",
        LocalizationKey::UsageProfileRename => "이름 변경",
        LocalizationKey::UsageProfileLogin => "로그인",
        LocalizationKey::UsageProfileLogout => "로그아웃",
        LocalizationKey::UsageProfileDelete => "삭제",
        LocalizationKey::UsageProfileSystem => "기본 Codex 계정",
        LocalizationKey::UsageProfileDisplayed => "표시 중",
        LocalizationKey::UsageProfileConfirmBrowserAccount => "브라우저에서 사용할 ChatGPT 계정을 확인하세요.",
        LocalizationKey::UsageProfileCliIdeUnchanged => "터미널, IDE, Codex 앱의 로그인은 바뀌지 않습니다.",
        LocalizationKey::UsageProfileDeleteConfirm => "이 사용량 프로필과 로컬 데이터를 삭제할까요?",
        LocalizationKey::UsageProfileDeleteIrrecoverable => "삭제한 프로필 데이터는 복구할 수 없습니다.",
        LocalizationKey::MenuLogin => "Codex 로그인",
        LocalizationKey::MenuRefreshNow => "지금 새로 고침",
        LocalizationKey::MenuAutostart => "Windows 시작 시 실행",
        LocalizationKey::MenuStartupWidgetChoice => "시작 시: 위젯 표시",
        LocalizationKey::MenuStartupTrayOnlyChoice => "시작 시: 트레이만",
        LocalizationKey::MenuAuthRefreshNow => "인증 새로 고침",
        LocalizationKey::MenuAuthRefresh => "인증 자동 새로 고침",
        LocalizationKey::MenuDiagnostics => "진단",
        LocalizationKey::MenuHideWidget => "위젯 숨기기",
        LocalizationKey::MenuShowWidget => "위젯 표시",
        LocalizationKey::MenuTaskbarAll => "위젯: 모든 모니터",
        LocalizationKey::MenuTaskbarPrimary => "위젯: 주 모니터만",
        LocalizationKey::MenuExit => "종료",
        LocalizationKey::MenuUpdateCheck => "업데이트 확인",
        LocalizationKey::UpdateChecking => "업데이트 확인 중",
        LocalizationKey::UpdateAvailable => "업데이트 있음",
        LocalizationKey::UpdateCurrent => "최신 버전",
        LocalizationKey::UpdateFailed => "업데이트 확인 실패",
        LocalizationKey::MenuShowWeekly => "주간 사용량 표시",
        LocalizationKey::MenuShowRemaining => "남은 사용량 표시",
        LocalizationKey::RefreshEvery1Minute => "1분마다 새로 고침",
        LocalizationKey::RefreshEvery5Minutes => "5분마다 새로 고침",
        LocalizationKey::RefreshEvery10Minutes => "10분마다 새로 고침",
        LocalizationKey::RefreshEvery15Minutes => "15분마다 새로 고침",
        LocalizationKey::RefreshEvery30Minutes => "30분마다 새로 고침",
        LocalizationKey::WindowTitle => "CodexPeek",
        LocalizationKey::UsageProfileOperationFailed => "사용량 프로필을 변경하지 못했습니다. 다시 시도하세요.",
        LocalizationKey::UsageProfileInvalidLabel => "올바른 프로필 이름을 입력하세요.",
        LocalizationKey::UsageForecastClearConfirm => "사용량 소진 예측 기록을 삭제할까요?",
        LocalizationKey::UpdateAvailablePrompt => "릴리스 페이지를 열까요?",
        LocalizationKey::UpdateFailedHelp => "업데이트를 확인하지 못했습니다. 연결을 확인한 뒤 나중에 다시 시도하세요.",
        LocalizationKey::UpdateOpenFailed => "릴리스 페이지를 열지 못했습니다.",
    }
}

/// The text of `key` in `language`.
pub fn localized_text(key: LocalizationKey, language: Language) -> (s: &'static str)
    ensures
        s@ == text_of(key, language),
{
    match language {
        Language::Korean => korean(key),
        _ => english(key),
    }
}

} // verus!
