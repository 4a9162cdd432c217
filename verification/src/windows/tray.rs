//! The tray menu: its entries in order and their localized wording.

use vstd::prelude::*;

use crate::domain::{Language, LanguagePreference, StartupView, TaskbarDisplayMode, UpdatePresentationStatus};
use crate::localization::{localized_text, text_of, LocalizationKey};
use crate::text::string_from;

use super::{
    menu_action_of, UiAction, UiSettings, MENU_AUTH_REFRESH, MENU_AUTOSTART, MENU_AUTO_AUTH_REFRESH, MENU_DIAGNOSTICS,
    MENU_EXIT, MENU_INTERVAL_1, MENU_INTERVAL_10, MENU_INTERVAL_15, MENU_INTERVAL_30,
    MENU_INTERVAL_5, MENU_LANGUAGE_AUTO, MENU_LANGUAGE_ENGLISH, MENU_LANGUAGE_KOREAN, MENU_LOGIN,
    MENU_MANAGE_USAGE_PROFILES,
    MENU_REFRESH, MENU_SHOW_REMAINING, MENU_STARTUP_TRAY, MENU_STARTUP_WIDGET, MENU_TASKBAR_ALL,
    MENU_TASKBAR_PRIMARY, MENU_UPDATE_CHECK, MENU_WIDGET_VISIBLE,
};

verus! {

/// An item of the tray menu.
#[derive(Clone, Debug, PartialEq, Eq)]
pub enum TrayMenuEntry {
    /// A selectable command.
    Command(TrayMenuCommand),
    /// A line between groups of commands.
    Separator,
}

/// A command of the tray menu: its Win32 identifier, localized label and
/// check mark.
#[derive(Clone, Debug, PartialEq, Eq)]
pub struct TrayMenuCommand {
    pub id: u16,
    pub label: String,
    pub checked: bool,
}

/// The abstract value of a menu entry.
pub enum MenuEntryView {
    Command(u16, Seq<char>, bool),
    Separator,
}

pub open spec fn entry_view(entry: TrayMenuEntry) -> MenuEntryView {
    match entry {
        TrayMenuEntry::Command(c) => MenuEntryView::Command(c.id, c.label@, c.checked),
        TrayMenuEntry::Separator => MenuEntryView::Separator,
    }
}

pub open spec fn entry_views(entries: Seq<TrayMenuEntry>) -> Seq<MenuEntryView> {
    entries.map_values(|e: TrayMenuEntry| entry_view(e))
}

/// A command whose label is the text of `key`.
pub open spec fn keyed(id: u16, key: LocalizationKey, language: Language, checked: bool) -> MenuEntryView {
    MenuEntryView::Command(id, text_of(key, language), checked)
}

/// The wording of the update entry for the update check status.
pub open spec fn update_key(status: UpdatePresentationStatus) -> LocalizationKey {
    match status {
        UpdatePresentationStatus::Idle => LocalizationKey::MenuUpdateCheck,
        UpdatePresentationStatus::Checking => LocalizationKey::UpdateChecking,
        UpdatePresentationStatus::Available => LocalizationKey::UpdateAvailable,
        UpdatePresentationStatus::Current => LocalizationKey::UpdateCurrent,
        UpdatePresentationStatus::Failed => LocalizationKey::UpdateFailed,
    }
}

/// The display-mode switch names the mode that is not shown now.
pub open spec fn usage_mode_key(show_remaining: bool) -> LocalizationKey {
    if show_remaining {
        LocalizationKey::MenuShowWeekly
    } else {
        LocalizationKey::MenuShowRemaining
    }
}

/// The name of each language in that language.
pub open spec fn endonym(option: LanguagePreference) -> Seq<char> {
    match option {
        LanguagePreference::Auto => ""@,
        LanguagePreference::Korean => "한국어"@,
        LanguagePreference::English => "English"@,
        LanguagePreference::Spanish => "Español"@,
        LanguagePreference::PortugueseBrazil => "Português (Brasil)"@,
        LanguagePreference::Indonesian => "Bahasa Indonesia"@,
        LanguagePreference::Japanese => "日本語"@,
        LanguagePreference::Hindi => "हिन्दी"@,
        LanguagePreference::German => "Deutsch"@,
        LanguagePreference::French => "Français"@,
        LanguagePreference::Vietnamese => "Tiếng Việt"@,
        LanguagePreference::Turkish => "Türkçe"@,
        LanguagePreference::Arabic => "العربية"@,
    }
}

/// The label of a language entry: the prefix and the automatic choice follow
/// the UI language, while a language's own name is always its endonym.
pub open spec fn language_label(option: LanguagePreference, resolved: Language) -> Seq<char> {
    if option == LanguagePreference::Auto {
        if resolved == Language::Korean { "언어: 자동"@ } else { "Language: automatic"@ }
    } else {
        (if resolved == Language::Korean { "언어: "@ } else { "Language: "@ }) + endonym(option)
    }
}

/// The refresh and startup part of the tray menu.
pub open spec fn menu_head(settings: UiSettings) -> Seq<MenuEntryView> {
    let l = settings.resolved_language;
    (if settings.login_required { seq![keyed(MENU_LOGIN, LocalizationKey::MenuLogin, l, false)] } else { Seq::empty() })
        + seq![
        keyed(MENU_REFRESH, LocalizationKey::MenuRefreshNow, l, false),
        MenuEntryView::Separator,
        keyed(MENU_INTERVAL_1, LocalizationKey::RefreshEvery1Minute, l, settings.refresh_interval_minutes == 1),
        keyed(MENU_INTERVAL_5, LocalizationKey::RefreshEvery5Minutes, l, settings.refresh_interval_minutes == 5),
        keyed(MENU_INTERVAL_10, LocalizationKey::RefreshEvery10Minutes, l, settings.refresh_interval_minutes == 10),
        keyed(MENU_INTERVAL_15, LocalizationKey::RefreshEvery15Minutes, l, settings.refresh_interval_minutes == 15),
        keyed(MENU_INTERVAL_30, LocalizationKey::RefreshEvery30Minutes, l, settings.refresh_interval_minutes == 30),
        MenuEntryView::Separator,
        keyed(MENU_AUTOSTART, LocalizationKey::MenuAutostart, l, settings.start_with_windows),
        keyed(MENU_STARTUP_WIDGET, LocalizationKey::MenuStartupWidgetChoice, l, settings.startup_view == StartupView::Widget),
        keyed(MENU_STARTUP_TRAY, LocalizationKey::MenuStartupTrayOnlyChoice, l, settings.startup_view == StartupView::TrayOnly),
    ]
}

/// The sign-in, language and display part of the tray menu.
pub open spec fn menu_middle(settings: UiSettings) -> Seq<MenuEntryView> {
    let l = settings.resolved_language;
    (if !settings.login_required { seq![keyed(MENU_AUTH_REFRESH, LocalizationKey::MenuAuthRefreshNow, l, false)] } else { Seq::empty() })
        + seq![
        keyed(MENU_AUTO_AUTH_REFRESH, LocalizationKey::MenuAuthRefresh, l, settings.auto_auth_refresh),
        MenuEntryView::Command(MENU_LANGUAGE_AUTO, language_label(LanguagePreference::Auto, l), settings.language == LanguagePreference::Auto),
        MenuEntryView::Command(MENU_LANGUAGE_KOREAN, language_label(LanguagePreference::Korean, l), settings.language == LanguagePreference::Korean),
        MenuEntryView::Command(MENU_LANGUAGE_ENGLISH, language_label(LanguagePreference::English, l), settings.language == LanguagePreference::English),
        keyed(MENU_SHOW_REMAINING, usage_mode_key(settings.show_remaining_percent), l, false),
        MenuEntryView::Separator,
    ]
}

/// The maintenance, widget and exit part of the tray menu.
pub open spec fn menu_tail(settings: UiSettings) -> Seq<MenuEntryView> {
    let l = settings.resolved_language;
    seq![
        keyed(MENU_DIAGNOSTICS, LocalizationKey::MenuDiagnostics, l, false),
        keyed(MENU_UPDATE_CHECK, update_key(settings.update_status), l, false),
        keyed(MENU_WIDGET_VISIBLE, if settings.widget_visible { LocalizationKey::MenuHideWidget } else { LocalizationKey::MenuShowWidget }, l, settings.widget_visible),
        keyed(MENU_TASKBAR_ALL, LocalizationKey::MenuTaskbarAll, l, settings.taskbar_display_mode == TaskbarDisplayMode::All),
        keyed(MENU_TASKBAR_PRIMARY, LocalizationKey::MenuTaskbarPrimary, l, settings.taskbar_display_mode == TaskbarDisplayMode::Primary),
        MenuEntryView::Separator,
        keyed(MENU_EXIT, LocalizationKey::MenuExit, l, false),
    ]
}

/// The tray menu for the settings, in order: sign-in (only when it is
/// required), refresh, the refresh intervals with the current one checked,
/// startup choices, authentication refresh, languages, the display switch,
/// diagnostics, the update check, the widget and taskbar choices, and exit.
pub open spec fn tray_menu(settings: UiSettings) -> Seq<MenuEntryView> {
    menu_head(settings) + menu_middle(settings) + menu_tail(settings)
}

fn push_command(entries: &mut Vec<TrayMenuEntry>, id: u16, label: &str, checked: bool)
    ensures
        entry_views(final(entries)@) == entry_views(old(entries)@).push(MenuEntryView::Command(id, label@, checked)),
{
    entries.push(TrayMenuEntry::Command(TrayMenuCommand { id, label: string_from(label), checked }));
    assert(entry_views(entries@) =~= entry_views(old(entries)@).push(MenuEntryView::Command(id, label@, checked)));
}

fn push_separator(entries: &mut Vec<TrayMenuEntry>)
    ensures
        entry_views(final(entries)@) == entry_views(old(entries)@).push(MenuEntryView::Separator),
{
    entries.push(TrayMenuEntry::Separator);
    assert(entry_views(entries@) =~= entry_views(old(entries)@).push(MenuEntryView::Separator));
}

fn push_head(entries: &mut Vec<TrayMenuEntry>, settings: &UiSettings)
    ensures
        entry_views(final(entries)@) == entry_views(old(entries)@) + menu_head(*settings),
{
    let language = settings.resolved_language;
    let ghost start = entry_views(entries@);
    if settings.login_required {
        push_command(entries, MENU_LOGIN, localized_text(LocalizationKey::MenuLogin, language), false);
    }
    push_command(entries, MENU_REFRESH, localized_text(LocalizationKey::MenuRefreshNow, language), false);
    push_separator(entries);
    let minutes = settings.refresh_interval_minutes;
    push_command(entries, MENU_INTERVAL_1, localized_text(LocalizationKey::RefreshEvery1Minute, language), minutes == 1);
    push_command(entries, MENU_INTERVAL_5, localized_text(LocalizationKey::RefreshEvery5Minutes, language), minutes == 5);
    push_command(entries, MENU_INTERVAL_10, localized_text(LocalizationKey::RefreshEvery10Minutes, language), minutes == 10);
    push_command(entries, MENU_INTERVAL_15, localized_text(LocalizationKey::RefreshEvery15Minutes, language), minutes == 15);
    push_command(entries, MENU_INTERVAL_30, localized_text(LocalizationKey::RefreshEvery30Minutes, language), minutes == 30);
    push_separator(entries);
    push_command(entries, MENU_AUTOSTART, localized_text(LocalizationKey::MenuAutostart, language), settings.start_with_windows);
    push_command(
        entries,
        MENU_STARTUP_WIDGET,
        localized_text(LocalizationKey::MenuStartupWidgetChoice, language),
        settings.startup_view == StartupView::Widget,
    );
    push_command(
        entries,
        MENU_STARTUP_TRAY,
        localized_text(LocalizationKey::MenuStartupTrayOnlyChoice, language),
        settings.startup_view == StartupView::TrayOnly,
    );
    assert(entry_views(entries@) =~= start + menu_head(*settings));
}

fn push_middle(entries: &mut Vec<TrayMenuEntry>, settings: &UiSettings)
    ensures
        entry_views(final(entries)@) == entry_views(old(entries)@) + menu_middle(*settings),
{
    let language = settings.resolved_language;
    let ghost start = entry_views(entries@);
    if !settings.login_required {
        push_command(entries, MENU_AUTH_REFRESH, localized_text(LocalizationKey::MenuAuthRefreshNow, language), false);
    }
    push_command(entries, MENU_AUTO_AUTH_REFRESH, localized_text(LocalizationKey::MenuAuthRefresh, language), settings.auto_auth_refresh);
    push_command(
        entries,
        MENU_LANGUAGE_AUTO,
        language_menu_label(LanguagePreference::Auto, language),
        settings.language == LanguagePreference::Auto,
    );
    push_command(
        entries,
        MENU_LANGUAGE_KOREAN,
        language_menu_label(LanguagePreference::Korean, language),
        settings.language == LanguagePreference::Korean,
    );
    push_command(
        entries,
        MENU_LANGUAGE_ENGLISH,
        language_menu_label(LanguagePreference::English, language),
        settings.language == LanguagePreference::English,
    );
    push_command(entries, MENU_SHOW_REMAINING, usage_mode_menu_text(settings.show_remaining_percent, language), false);
    push_separator(entries);
    assert(entry_views(entries@) =~= start + menu_middle(*settings));
}

fn push_tail(entries: &mut Vec<TrayMenuEntry>, settings: &UiSettings)
    ensures
        entry_views(final(entries)@) == entry_views(old(entries)@) + menu_tail(*settings),
{
    let language = settings.resolved_language;
    let ghost start = entry_views(entries@);
    push_command(entries, MENU_DIAGNOSTICS, localized_text(LocalizationKey::MenuDiagnostics, language), false);
    push_command(entries, MENU_UPDATE_CHECK, update_menu_text(settings.update_status, language), false);
    let widget_key = if settings.widget_visible {
        LocalizationKey::MenuHideWidget
    } else {
        LocalizationKey::MenuShowWidget
    };
    push_command(entries, MENU_WIDGET_VISIBLE, localized_text(widget_key, language), settings.widget_visible);
    push_command(
        entries,
        MENU_TASKBAR_ALL,
        localized_text(LocalizationKey::MenuTaskbarAll, language),
        settings.taskbar_display_mode == TaskbarDisplayMode::All,
    );
    push_command(
        entries,
        MENU_TASKBAR_PRIMARY,
        localized_text(LocalizationKey::MenuTaskbarPrimary, language),
        settings.taskbar_display_mode == TaskbarDisplayMode::Primary,
    );
    push_separator(entries);
    push_command(entries, MENU_EXIT, localized_text(LocalizationKey::MenuExit, language), false);
    assert(entry_views(entries@) =~= start + menu_tail(*settings));
}

/// The tray menu entries for the current settings, in order.
pub fn tray_menu_entries(settings: &UiSettings) -> (entries: Vec<TrayMenuEntry>)
    ensures
        entry_views(entries@) == tray_menu(*settings),
{
    let mut entries: Vec<TrayMenuEntry> = Vec::new();
    assert(entry_views(entries@) =~= Seq::<MenuEntryView>::empty());
    push_head(&mut entries, settings);
    push_middle(&mut entries, settings);
    push_tail(&mut entries, settings);
    assert(entry_views(entries@) =~= tray_menu(*settings));
    entries
}

/// The wording of the update entry for the update check status.
pub fn update_menu_text(status: UpdatePresentationStatus, language: Language) -> (s: &'static str)
    ensures
        s@ == text_of(update_key(status), language),
{
    let key = match status {
        UpdatePresentationStatus::Idle => LocalizationKey::MenuUpdateCheck,
        UpdatePresentationStatus::Checking => LocalizationKey::UpdateChecking,
        UpdatePresentationStatus::Available => LocalizationKey::UpdateAvailable,
        UpdatePresentationStatus::Current => LocalizationKey::UpdateCurrent,
        UpdatePresentationStatus::Failed => LocalizationKey::UpdateFailed,
    };
    localized_text(key, language)
}

/// The wording of the display-mode switch: it offers the weekly view while
/// the remaining allowance is shown, and the remaining view otherwise.
pub fn usage_mode_menu_text(show_remaining: bool, language: Language) -> (s: &'static str)
    ensures
        s@ == text_of(usage_mode_key(show_remaining), language),
{
    let key = if show_remaining {
        LocalizationKey::MenuShowWeekly
    } else {
        LocalizationKey::MenuShowRemaining
    };
    localized_text(key, language)
}

/// The label of a language entry of the menu.
///
/// Each language is named in that language whatever the UI language, so a
/// user who cannot read the current UI finds their own; the prefix and the
/// automatic choice follow the UI language.
pub fn language_menu_label(option: LanguagePreference, resolved: Language) -> (s: &'static str)
    ensures
        s@ == language_label(option, resolved),
{
    let korean_ui = matches!(resolved, Language::Korean);
    proof {
        reveal_strlit("언어: ");
        reveal_strlit("Language: ");
    }
    match option {
        LanguagePreference::Auto => {
            if korean_ui {
                "언어: 자동"
            } else {
                "Language: automatic"
            }
        },
        LanguagePreference::Korean => {
            proof {
                reveal_strlit("언어: 한국어");
                reveal_strlit("Language: 한국어");
                reveal_strlit("한국어");
                assert("언어: 한국어"@ =~= "언어: "@ + "한국어"@);
                assert("Language: 한국어"@ =~= "Language: "@ + "한국어"@);
            }
            if korean_ui {
                "언어: 한국어"
            } else {
                "Language: 한국어"
            }
        },
        LanguagePreference::English => {
            proof {
                reveal_strlit("언어: English");
                reveal_strlit("Language: English");
                reveal_strlit("English");
                assert("언어: English"@ =~= "언어: "@ + "English"@);
                assert("Language: English"@ =~= "Language: "@ + "English"@);
            }
            if korean_ui {
                "언어: English"
            } else {
                "Language: English"
            }
        },
        LanguagePreference::Spanish => {
            proof {
                reveal_strlit("언어: Español");
                reveal_strlit("Language: Español");
                reveal_strlit("Español");
                assert("언어: Español"@ =~= "언어: "@ + "Español"@);
                assert("Language: Español"@ =~= "Language: "@ + "Español"@);
            }
            if korean_ui {
                "언어: Español"
            } else {
                "Language: Español"
            }
        },
        LanguagePreference::PortugueseBrazil => {
            proof {
                reveal_strlit("언어: Português (Brasil)");
                reveal_strlit("Language: Português (Brasil)");
                reveal_strlit("Português (Brasil)");
                assert("언어: Português (Brasil)"@ =~= "언어: "@ + "Português (Brasil)"@);
                assert("Language: Português (Brasil)"@ =~= "Language: "@ + "Português (Brasil)"@);
            }
            if korean_ui {
                "언어: Português (Brasil)"
            } else {
                "Language: Português (Brasil)"
            }
        },
        LanguagePreference::Indonesian => {
            proof {
                reveal_strlit("언어: Bahasa Indonesia");
                reveal_strlit("Language: Bahasa Indonesia");
                reveal_strlit("Bahasa Indonesia");
                assert("언어: Bahasa Indonesia"@ =~= "언어: "@ + "Bahasa Indonesia"@);
                assert("Language: Bahasa Indonesia"@ =~= "Language: "@ + "Bahasa Indonesia"@);
            }
            if korean_ui {
                "언어: Bahasa Indonesia"
            } else {
                "Language: Bahasa Indonesia"
            }
        },
        LanguagePreference::Japanese => {
            proof {
                reveal_strlit("언어: 日本語");
                reveal_strlit("Language: 日本語");
                reveal_strlit("日本語");
                assert("언어: 日本語"@ =~= "언어: "@ + "日本語"@);
                assert("Language: 日本語"@ =~= "Language: "@ + "日本語"@);
            }
            if korean_ui {
                "언어: 日本語"
            } else {
                "Language: 日本語"
            }
        },
        LanguagePreference::Hindi => {
            proof {
                reveal_strlit("언어: हिन्दी");
                reveal_strlit("Language: हिन्दी");
                reveal_strlit("हिन्दी");
                assert("언어: हिन्दी"@ =~= "언어: "@ + "हिन्दी"@);
                assert("Language: हिन्दी"@ =~= "Language: "@ + "हिन्दी"@);
            }
            if korean_ui {
                "언어: हिन्दी"
            } else {
                "Language: हिन्दी"
            }
        },
        LanguagePreference::German => {
            proof {
                reveal_strlit("언어: Deutsch");
                reveal_strlit("Language: Deutsch");
                reveal_strlit("Deutsch");
                assert("언어: Deutsch"@ =~= "언어: "@ + "Deutsch"@);
                assert("Language: Deutsch"@ =~= "Language: "@ + "Deutsch"@);
            }
            if korean_ui {
                "언어: Deutsch"
            } else {
                "Language: Deutsch"
            }
        },
        LanguagePreference::French => {
            proof {
                reveal_strlit("언어: Français");
                reveal_strlit("Language: Français");
                reveal_strlit("Français");
                assert("언어: Français"@ =~= "언어: "@ + "Français"@);
                assert("Language: Français"@ =~= "Language: "@ + "Français"@);
            }
            if korean_ui {
                "언어: Français"
            } else {
                "Language: Français"
            }
        },
        LanguagePreference::Vietnamese => {
            proof {
                reveal_strlit("언어: Tiếng Việt");
                reveal_strlit("Language: Tiếng Việt");
                reveal_strlit("Tiếng Việt");
                assert("언어: Tiếng Việt"@ =~= "언어: "@ + "Tiếng Việt"@);
                assert("Language: Tiếng Việt"@ =~= "Language: "@ + "Tiếng Việt"@);
            }
            if korean_ui {
                "언어: Tiếng Việt"
            } else {
                "Language: Tiếng Việt"
            }
        },
        LanguagePreference::Turkish => {
            proof {
                reveal_strlit("언어: Türkçe");
                reveal_strlit("Language: Türkçe");
                reveal_strlit("Türkçe");
                assert("언어: Türkçe"@ =~= "언어: "@ + "Türkçe"@);
                assert("Language: Türkçe"@ =~= "Language: "@ + "Türkçe"@);
            }
            if korean_ui {
                "언어: Türkçe"
            } else {
                "Language: Türkçe"
            }
        },
        LanguagePreference::Arabic => {
            proof {
                reveal_strlit("언어: العربية");
                reveal_strlit("Language: العربية");
                reveal_strlit("العربية");
                assert("언어: العربية"@ =~= "언어: "@ + "العربية"@);
                assert("Language: العربية"@ =~= "Language: "@ + "العربية"@);
            }
            if korean_ui {
                "언어: العربية"
            } else {
                "Language: العربية"
            }
        },
    }
}

/// The Segoe Fluent glyph of a menu command: a check mark when checked,
/// else a glyph for refresh, account, diagnostics, update and exit, and a
/// generic one for the rest.
pub fn command_glyph(id: u16, checked: bool) -> (g: &'static str)
    ensures
        g@ == (if checked {
            "\u{E73E}"@
        } else if id == MENU_REFRESH || id == MENU_AUTH_REFRESH {
            "\u{E72C}"@
        } else if id == MENU_MANAGE_USAGE_PROFILES || id == MENU_LOGIN {
            "\u{E77B}"@
        } else if id == MENU_DIAGNOSTICS {
            "\u{E9D9}"@
        } else if id == MENU_UPDATE_CHECK {
            "\u{E895}"@
        } else if id == MENU_EXIT {
            "\u{E8BB}"@
        } else {
            "\u{E8B8}"@
        }),
{
    if checked {
        return "\u{E73E}";
    }
    if id == MENU_REFRESH || id == MENU_AUTH_REFRESH {
        "\u{E72C}"
    } else if id == MENU_MANAGE_USAGE_PROFILES || id == MENU_LOGIN {
        "\u{E77B}"
    } else if id == MENU_DIAGNOSTICS {
        "\u{E9D9}"
    } else if id == MENU_UPDATE_CHECK {
        "\u{E895}"
    } else if id == MENU_EXIT {
        "\u{E8BB}"
    } else {
        "\u{E8B8}"
    }
}

/// Choosing a refresh-interval entry of the tray menu and drawing the menu
/// again with the interval it sets shows that very entry checked: the
/// entry's action sets the interval the entry stands for.
pub proof fn lemma_chosen_interval_is_checked(settings: UiSettings, menu_id: u16, minutes: u32)
    requires
        menu_action_of(menu_id) == Some(UiAction::SetRefreshInterval(minutes)),
        settings.refresh_interval_minutes == minutes,
    ensures
        exists|i: int|
            0 <= i < tray_menu(settings).len() && (#[trigger] tray_menu(settings)[i] matches MenuEntryView::Command(
                id,
                _,
                checked,
            ) && id == menu_id && checked),
{
    let menu = tray_menu(settings);
    let offset: int = if settings.login_required { 1 } else { 0 };
    let head = menu_head(settings);
    assert(menu =~= head + menu_middle(settings) + menu_tail(settings));
    let k: int = if menu_id == MENU_INTERVAL_1 {
        3
    } else if menu_id == MENU_INTERVAL_5 {
        4
    } else if menu_id == MENU_INTERVAL_10 {
        5
    } else if menu_id == MENU_INTERVAL_15 {
        6
    } else {
        7
    };
    let i = offset + k - 1;
    assert(menu[i] == head[i]);
}

/// Every checked entry of the tray menu whose action sets a refresh
/// interval sets the interval that is in force.
pub proof fn lemma_checked_interval_is_current(settings: UiSettings, i: int)
    requires
        0 <= i < tray_menu(settings).len(),
    ensures
        match tray_menu(settings)[i] {
            MenuEntryView::Command(id, _, checked) => checked ==> match menu_action_of(id) {
                Some(UiAction::SetRefreshInterval(m)) => m == settings.refresh_interval_minutes,
                _ => true,
            },
            MenuEntryView::Separator => true,
        },
{
    let menu = tray_menu(settings);
    let head = menu_head(settings);
    let middle = menu_middle(settings);
    let tail = menu_tail(settings);
    assert(menu =~= head + middle + tail);
    if i < head.len() {
        assert(menu[i] == head[i]);
    } else if i < head.len() + middle.len() {
        assert(menu[i] == middle[i - head.len()]);
    } else {
        assert(menu[i] == tail[i - head.len() - middle.len()]);
    }
}

/// Every command of the tray menu turns into a UI action.
pub proof fn lemma_menu_commands_have_actions(settings: UiSettings, i: int)
    requires
        0 <= i < tray_menu(settings).len(),
    ensures
        tray_menu(settings)[i] matches MenuEntryView::Command(id, _, _) ==> menu_action_of(id) is Some,
{
    let menu = tray_menu(settings);
    let head = menu_head(settings);
    let middle = menu_middle(settings);
    let tail = menu_tail(settings);
    assert(menu =~= head + middle + tail);
    if i < head.len() {
        assert(menu[i] == head[i]);
    } else if i < head.len() + middle.len() {
        assert(menu[i] == middle[i - head.len()]);
    } else {
        assert(menu[i] == tail[i - head.len() - middle.len()]);
    }
}

} // verus!
