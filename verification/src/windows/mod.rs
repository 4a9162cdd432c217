//! Typed UI boundary of the Windows application.

pub mod allowance;
pub mod autostart;
pub mod design;
pub mod dialog_paint;
pub mod dialog_events;
pub mod dialog_resources;
pub mod lifecycle;
pub mod native;
pub mod popup;
pub mod profile_dialog;
pub mod profile_rows;
pub mod row_paint;
pub mod shell;
pub mod shell_events;
pub mod taskbar;
pub mod taskbar_widget;
pub mod theme;
pub mod time;
pub mod tray;
pub mod usage_popup;
pub mod widget;

use vstd::prelude::*;

use crate::domain::{
    Language, LanguagePreference, StartupView, TaskbarDisplayMode, UpdatePresentationStatus,
    UsageProfileId,
};
use crate::localization::{localized_text, text_of, LocalizationKey};
use crate::text::{chars_of, str_eq, string_from};
use vstd::string::*;

verus! {

/// Display status of a profile's usage progress.
///
/// Usage below 70% is healthy, from 70% warning, and from 90% critical.
#[derive(Clone, Copy, Debug, PartialEq, Eq, Structural)]
pub enum ProfileUsageStatus {
    Healthy,
    Warning,
    Critical,
}

/// Non-sensitive display data of one usage profile: its identity, its
/// validated label, a localized summary and the usage shown in its row.
#[derive(Debug, PartialEq, Eq)]
pub struct UsageProfileView {
    pub id: UsageProfileId,
    pub label: String,
    pub summary: String,
    pub details: String,
    pub selected: bool,
    pub login_required: bool,
    pub used_percent: Option<u8>,
    pub usage_status: Option<ProfileUsageStatus>,
    pub managed: bool,
}

impl Clone for UsageProfileView {
    fn clone(&self) -> (r: Self)
        ensures
            r == *self,
    {
        UsageProfileView {
            id: self.id,
            label: self.label.clone(),
            summary: self.summary.clone(),
            details: self.details.clone(),
            selected: self.selected,
            login_required: self.login_required,
            used_percent: self.used_percent,
            usage_status: self.usage_status,
            managed: self.managed,
        }
    }
}


/// Refresh-now menu identifier.
pub const MENU_REFRESH: u16 = 100;
/// One-minute refresh interval menu identifier.
pub const MENU_INTERVAL_1: u16 = 121;
/// Five-minute refresh interval menu identifier.
pub const MENU_INTERVAL_5: u16 = 125;
/// Ten-minute refresh interval menu identifier.
pub const MENU_INTERVAL_10: u16 = 130;
/// Fifteen-minute refresh interval menu identifier.
pub const MENU_INTERVAL_15: u16 = 135;
/// Thirty-minute refresh interval menu identifier.
pub const MENU_INTERVAL_30: u16 = 150;
/// Start-with-Windows menu identifier.
pub const MENU_AUTOSTART: u16 = 160;
/// Startup-shows-widget menu identifier.
pub const MENU_STARTUP_WIDGET: u16 = 170;
/// Startup-tray-only menu identifier.
pub const MENU_STARTUP_TRAY: u16 = 171;
/// Forced authentication refresh menu identifier.
pub const MENU_AUTH_REFRESH: u16 = 180;
/// ChatGPT login menu identifier.
pub const MENU_LOGIN: u16 = 182;
/// Automatic authentication refresh menu identifier.
pub const MENU_AUTO_AUTH_REFRESH: u16 = 181;
/// Automatic language menu identifier.
pub const MENU_LANGUAGE_AUTO: u16 = 200;
/// Korean menu identifier.
pub const MENU_LANGUAGE_KOREAN: u16 = 201;
/// English menu identifier.
pub const MENU_LANGUAGE_ENGLISH: u16 = 202;
/// Spanish menu identifier.
pub const MENU_LANGUAGE_SPANISH: u16 = 203;
/// Brazilian Portuguese menu identifier.
pub const MENU_LANGUAGE_PORTUGUESE_BRAZIL: u16 = 204;
/// Indonesian menu identifier.
pub const MENU_LANGUAGE_INDONESIAN: u16 = 205;
/// Japanese menu identifier.
pub const MENU_LANGUAGE_JAPANESE: u16 = 206;
/// Hindi menu identifier.
pub const MENU_LANGUAGE_HINDI: u16 = 207;
/// German menu identifier.
pub const MENU_LANGUAGE_GERMAN: u16 = 208;
/// French menu identifier.
pub const MENU_LANGUAGE_FRENCH: u16 = 209;
/// Vietnamese menu identifier.
pub const MENU_LANGUAGE_VIETNAMESE: u16 = 210;
/// Turkish menu identifier.
pub const MENU_LANGUAGE_TURKISH: u16 = 211;
/// Arabic menu identifier.
pub const MENU_LANGUAGE_ARABIC: u16 = 212;
/// Diagnostics menu identifier.
pub const MENU_DIAGNOSTICS: u16 = 220;
/// Update check menu identifier.
pub const MENU_UPDATE_CHECK: u16 = 230;
/// Widget visibility toggle menu identifier.
pub const MENU_WIDGET_VISIBLE: u16 = 240;
/// Add-usage-profile menu identifier.
pub const MENU_ADD_USAGE_PROFILE: u16 = 260;
/// Manage-usage-profiles menu identifier.
pub const MENU_MANAGE_USAGE_PROFILES: u16 = 261;
/// Usage forecast toggle menu identifier.
pub const MENU_USAGE_FORECAST_TOGGLE: u16 = 270;
/// Usage forecast history clearing menu identifier.
pub const MENU_USAGE_FORECAST_CLEAR_HISTORY: u16 = 271;
/// Usage forecast submenu identifier.
pub const MENU_USAGE_FORECAST: u16 = 272;
/// Show-remaining toggle menu identifier.
pub const MENU_SHOW_REMAINING: u16 = 241;
/// Widget-on-all-monitors menu identifier.
pub const MENU_TASKBAR_ALL: u16 = 242;
/// Widget-on-primary-monitor menu identifier.
pub const MENU_TASKBAR_PRIMARY: u16 = 243;
/// Exit menu identifier.
pub const MENU_EXIT: u16 = 250;

/// The launch mode chosen on the command line.
#[derive(Clone, Copy, Debug, PartialEq, Eq, Structural)]
pub enum LaunchMode {
    /// Use the saved settings.
    Normal,
    /// Apply the rules of an automatic start at sign-in.
    Startup,
    /// Run diagnostics only, without the UI.
    Diagnose,
}

/// A side-effecting step of startup, in the order it happens.
#[derive(Clone, Copy, Debug, PartialEq, Eq, Structural)]
pub enum StartupStep {
    AcquireSingleInstance,
    LoadSettings,
    StartPoller,
    StartUpdateCheck,
    RunUi,
    RunDiagnostics,
}

/// The steps of each launch mode.
pub open spec fn startup_steps(mode: LaunchMode) -> Seq<StartupStep> {
    match mode {
        LaunchMode::Diagnose => seq![StartupStep::RunDiagnostics],
        _ => seq![
            StartupStep::AcquireSingleInstance,
            StartupStep::LoadSettings,
            StartupStep::StartPoller,
            StartupStep::StartUpdateCheck,
            StartupStep::RunUi,
        ],
    }
}

/// The side effects of a launch mode in order: diagnostics alone for
/// `Diagnose`; otherwise the single-instance lock first, then the settings,
/// the poller, the update check and the UI.
pub fn startup_plan(mode: LaunchMode) -> (steps: Vec<StartupStep>)
    ensures
        steps@ == startup_steps(mode),
{
    match mode {
        LaunchMode::Diagnose => vec![StartupStep::RunDiagnostics],
        LaunchMode::Normal | LaunchMode::Startup => vec![
            StartupStep::AcquireSingleInstance,
            StartupStep::LoadSettings,
            StartupStep::StartPoller,
            StartupStep::StartUpdateCheck,
            StartupStep::RunUi,
        ],
    }
}

/// The language of a Windows language identifier, by its primary language
/// (the low ten bits); Portuguese counts only as the Brazilian 0x0416.
pub open spec fn langid_language(language: u16) -> Option<Language> {
    let primary = language % 1024;
    if primary == 0x01 {
        Some(Language::Arabic)
    } else if primary == 0x07 {
        Some(Language::German)
    } else if primary == 0x09 {
        Some(Language::English)
    } else if primary == 0x0a {
        Some(Language::Spanish)
    } else if primary == 0x0c {
        Some(Language::French)
    } else if primary == 0x11 {
        Some(Language::Japanese)
    } else if primary == 0x12 {
        Some(Language::Korean)
    } else if primary == 0x16 && language == 0x0416 {
        Some(Language::PortugueseBrazil)
    } else if primary == 0x1f {
        Some(Language::Turkish)
    } else if primary == 0x21 {
        Some(Language::Indonesian)
    } else if primary == 0x2a {
        Some(Language::Vietnamese)
    } else if primary == 0x39 {
        Some(Language::Hindi)
    } else {
        None
    }
}

fn language_from_langid(language: u16) -> (r: Option<Language>)
    ensures
        r == langid_language(language),
{
    let primary_language = language & 0x03ff;
    assert(primary_language == language % 1024) by (bit_vector)
        requires
            primary_language == language & 0x03ff,
    ;
    if primary_language == 0x01 {
        Some(Language::Arabic)
    } else if primary_language == 0x07 {
        Some(Language::German)
    } else if primary_language == 0x09 {
        Some(Language::English)
    } else if primary_language == 0x0a {
        Some(Language::Spanish)
    } else if primary_language == 0x0c {
        Some(Language::French)
    } else if primary_language == 0x11 {
        Some(Language::Japanese)
    } else if primary_language == 0x12 {
        Some(Language::Korean)
    } else if primary_language == 0x16 && language == 0x0416 {
        Some(Language::PortugueseBrazil)
    } else if primary_language == 0x1f {
        Some(Language::Turkish)
    } else if primary_language == 0x21 {
        Some(Language::Indonesian)
    } else if primary_language == 0x2a {
        Some(Language::Vietnamese)
    } else if primary_language == 0x39 {
        Some(Language::Hindi)
    } else {
        None
    }
}

/// A character lower-cased in ASCII, with `_` read as `-`.
pub open spec fn locale_char(c: char) -> char {
    if 'A' <= c <= 'Z' {
        ((c as u32) + 32) as char
    } else if c == '_' {
        '-'
    } else {
        c
    }
}

/// The locale name lower-cased in ASCII, with `_` read as `-`.
pub open spec fn normalized_locale(locale: Seq<char>) -> Seq<char> {
    locale.map_values(|c: char| locale_char(c))
}

/// The part of a normalized locale before its first `-`.
pub open spec fn primary_subtag(locale: Seq<char>) -> Seq<char>
    decreases locale.len(),
{
    if locale.len() == 0 || locale[0] == '-' {
        Seq::empty()
    } else {
        seq![locale[0]] + primary_subtag(locale.drop_first())
    }
}

/// The language of a locale name such as `ko-KR`: by its primary subtag,
/// with Portuguese only for `pt-BR` and its extensions.
pub open spec fn locale_language(locale: Seq<char>) -> Option<Language> {
    subtag_language(primary_subtag(normalized_locale(locale)), normalized_locale(locale))
}

/// The language of a primary subtag `p` of the normalized locale `l`.
pub open spec fn subtag_language(p: Seq<char>, l: Seq<char>) -> Option<Language> {
    if p == "ar"@ {
        Some(Language::Arabic)
    } else if p == "de"@ {
        Some(Language::German)
    } else if p == "en"@ {
        Some(Language::English)
    } else if p == "es"@ {
        Some(Language::Spanish)
    } else if p == "fr"@ {
        Some(Language::French)
    } else if p == "hi"@ {
        Some(Language::Hindi)
    } else if p == "id"@ {
        Some(Language::Indonesian)
    } else if p == "ja"@ {
        Some(Language::Japanese)
    } else if p == "ko"@ {
        Some(Language::Korean)
    } else if p == "pt"@ {
        if l == "pt-br"@ || (l.len() >= "pt-br-"@.len() && l.take("pt-br-"@.len() as int) == "pt-br-"@) {
            Some(Language::PortugueseBrazil)
        } else {
            None
        }
    } else if p == "tr"@ {
        Some(Language::Turkish)
    } else if p == "vi"@ {
        Some(Language::Vietnamese)
    } else {
        None
    }
}

fn seq_eq(a: &Vec<char>, b: &str) -> (r: bool)
    ensures
        r == (a@ == b@),
{
    let y = chars_of(b);
    if a.len() != y.len() {
        return false;
    }
    let mut i: usize = 0;
    while i < a.len()
        invariant
            y@ == b@,
            a.len() == y.len(),
            i <= a.len(),
            forall|j: int| 0 <= j < i ==> a@[j] == y@[j],
        decreases a.len() - i,
    {
        if a[i] != y[i] {
            return false;
        }
        i += 1;
    }
    assert(a@ =~= y@);
    true
}

fn has_prefix(v: &Vec<char>, prefix: &str) -> (r: bool)
    ensures
        r == (v@.len() >= prefix@.len() && v@.take(prefix@.len() as int) == prefix@),
{
    let p = chars_of(prefix);
    if v.len() < p.len() {
        return false;
    }
    let mut i: usize = 0;
    while i < p.len()
        invariant
            p@ == prefix@,
            v.len() >= p.len(),
            i <= p.len(),
            forall|k: int| 0 <= k < i ==> v@[k] == p@[k],
        decreases p.len() - i,
    {
        if v[i] != p[i] {
            assert(v@.take(p.len() as int)[i as int] != p@[i as int]);
            return false;
        }
        i += 1;
    }
    assert(v@.take(p.len() as int) =~= p@);
    true
}

fn language_from_subtags(primary: &Vec<char>, normalized: &Vec<char>) -> (r: Option<Language>)
    ensures
        r == subtag_language(primary@, normalized@),
{
    if seq_eq(primary, "ar") {
        Some(Language::Arabic)
    } else if seq_eq(primary, "de") {
        Some(Language::German)
    } else if seq_eq(primary, "en") {
        Some(Language::English)
    } else if seq_eq(primary, "es") {
        Some(Language::Spanish)
    } else if seq_eq(primary, "fr") {
        Some(Language::French)
    } else if seq_eq(primary, "hi") {
        Some(Language::Hindi)
    } else if seq_eq(primary, "id") {
        Some(Language::Indonesian)
    } else if seq_eq(primary, "ja") {
        Some(Language::Japanese)
    } else if seq_eq(primary, "ko") {
        Some(Language::Korean)
    } else if seq_eq(primary, "pt") {
        let whole = seq_eq(normalized, "pt-br");
        let extended = has_prefix(normalized, "pt-br-");
        if whole || extended {
            Some(Language::PortugueseBrazil)
        } else {
            None
        }
    } else if seq_eq(primary, "tr") {
        Some(Language::Turkish)
    } else if seq_eq(primary, "vi") {
        Some(Language::Vietnamese)
    } else {
        None
    }
}

fn language_from_locale_name(locale: &str) -> (r: Option<Language>)
    ensures
        r == locale_language(locale@),
{
    let chars = chars_of(locale);
    let mut normalized: Vec<char> = Vec::new();
    let mut i: usize = 0;
    while i < chars.len()
        invariant
            chars@ == locale@,
            i <= chars.len(),
            normalized@ == normalized_locale(locale@).take(i as int),
        decreases chars.len() - i,
    {
        let c = chars[i];
        let n = if 'A' <= c && c <= 'Z' {
            ((c as u8) + 32) as char
        } else if c == '_' {
            '-'
        } else {
            c
        };
        normalized.push(n);
        i += 1;
        assert(normalized@ =~= normalized_locale(locale@).take(i as int));
    }
    assert(normalized@ =~= normalized_locale(locale@));
    let ghost l = normalized@;
    let mut primary: Vec<char> = Vec::new();
    let mut k: usize = 0;
    while k < normalized.len() && normalized[k] != '-'
        invariant
            l == normalized@,
            k <= normalized.len(),
            primary@ + primary_subtag(l.skip(k as int)) == primary_subtag(l),
            primary@.len() == k,
        decreases normalized.len() - k,
    {
        primary.push(normalized[k]);
        proof {
            assert(l.skip(k as int).drop_first() =~= l.skip(k + 1));
            assert(primary@ + primary_subtag(l.skip(k + 1)) =~= primary@.drop_last() + primary_subtag(l.skip(k as int)));
        }
        k += 1;
    }
    assert(primary@ =~= primary_subtag(l)) by {
        assert(primary_subtag(l.skip(k as int)) =~= Seq::<char>::empty());
    }
    language_from_subtags(&primary, &normalized)
}

/// The display language: an explicit choice wins; `Auto` follows the
/// Windows UI language, then the locale name, then English.
pub open spec fn resolved_language(preference: LanguagePreference, ui_language: Option<u16>, locale_name: Option<Seq<char>>) -> Language {
    match preference {
        LanguagePreference::Korean => Language::Korean,
        LanguagePreference::English => Language::English,
        LanguagePreference::Spanish => Language::Spanish,
        LanguagePreference::PortugueseBrazil => Language::PortugueseBrazil,
        LanguagePreference::Indonesian => Language::Indonesian,
        LanguagePreference::Japanese => Language::Japanese,
        LanguagePreference::Hindi => Language::Hindi,
        LanguagePreference::German => Language::German,
        LanguagePreference::French => Language::French,
        LanguagePreference::Vietnamese => Language::Vietnamese,
        LanguagePreference::Turkish => Language::Turkish,
        LanguagePreference::Arabic => Language::Arabic,
        LanguagePreference::Auto => {
            let from_id = match ui_language {
                Some(id) => langid_language(id),
                None => None,
            };
            let from_locale = match locale_name {
                Some(name) => locale_language(name),
                None => None,
            };
            match from_id {
                Some(l) => l,
                None => match from_locale {
                    Some(l) => l,
                    None => Language::English,
                },
            }
        },
    }
}

/// Resolves the saved language choice against the Windows UI language.
pub fn resolve_windows_language(preference: LanguagePreference, ui_language: Option<u16>, locale_name: Option<&str>) -> (r: Language)
    ensures
        r == resolved_language(preference, ui_language, match locale_name {
            Some(name) => Some(name@),
            None => None,
        }),
{
    match preference {
        LanguagePreference::Korean => Language::Korean,
        LanguagePreference::English => Language::English,
        LanguagePreference::Spanish => Language::Spanish,
        LanguagePreference::PortugueseBrazil => Language::PortugueseBrazil,
        LanguagePreference::Indonesian => Language::Indonesian,
        LanguagePreference::Japanese => Language::Japanese,
        LanguagePreference::Hindi => Language::Hindi,
        LanguagePreference::German => Language::German,
        LanguagePreference::French => Language::French,
        LanguagePreference::Vietnamese => Language::Vietnamese,
        LanguagePreference::Turkish => Language::Turkish,
        LanguagePreference::Arabic => Language::Arabic,
        LanguagePreference::Auto => {
            let from_id = match ui_language {
                Some(id) => language_from_langid(id),
                None => None,
            };
            match from_id {
                Some(language) => language,
                None => {
                    let from_locale = match locale_name {
                        Some(name) => language_from_locale_name(name),
                        None => None,
                    };
                    match from_locale {
                        Some(language) => language,
                        None => Language::English,
                    }
                },
            }
        },
    }
}

/// The locale name Windows gives a language identifier, by its primary
/// language (the low ten bits) and, for Portuguese, its sublanguage; the
/// empty name for the languages this table does not list.
pub open spec fn windows_language_tag(language: u16) -> Seq<char> {
    let primary = language % 1024;
    if primary == 0x01 {
        "ar"@
    } else if primary == 0x04 {
        "zh"@
    } else if primary == 0x07 {
        "de"@
    } else if primary == 0x09 {
        "en"@
    } else if primary == 0x0a {
        "es"@
    } else if primary == 0x0c {
        "fr"@
    } else if primary == 0x10 {
        "it"@
    } else if primary == 0x11 {
        "ja"@
    } else if primary == 0x12 {
        "ko"@
    } else if primary == 0x13 {
        "nl"@
    } else if primary == 0x16 {
        if language == 0x0416 { "pt-BR"@ } else { "pt-PT"@ }
    } else if primary == 0x19 {
        "ru"@
    } else if primary == 0x1f {
        "tr"@
    } else if primary == 0x21 {
        "id"@
    } else if primary == 0x2a {
        "vi"@
    } else if primary == 0x39 {
        "hi"@
    } else {
        ""@
    }
}

/// With the automatic choice, a Windows UI language and the locale name
/// Windows gives it resolve to the same display language.
pub proof fn lemma_ui_language_agrees_with_its_locale(ui_language: u16)
    ensures
        resolved_language(LanguagePreference::Auto, Some(ui_language), None) == resolved_language(
            LanguagePreference::Auto,
            None,
            Some(windows_language_tag(ui_language)),
        ),
{
    lemma_language_tag_letters();
    reveal_strlit("pt-BR");
    reveal_strlit("pt-PT");
    reveal_strlit("");
    let tag = windows_language_tag(ui_language);
    let primary = ui_language % 1024;
    if primary == 0x01 {
        assert(tag == "ar"@);
        lemma_lower_pair_locale(tag);
        assert(locale_language(tag) == Some(Language::Arabic));
        assert(langid_language(ui_language) == Some(Language::Arabic));
    } else if primary == 0x04 {
        assert(tag == "zh"@);
        lemma_lower_pair_locale(tag);
        assert(locale_language(tag) == None::<Language>);
        assert(langid_language(ui_language) == None::<Language>);
    } else if primary == 0x07 {
        assert(tag == "de"@);
        lemma_lower_pair_locale(tag);
        assert(locale_language(tag) == Some(Language::German));
        assert(langid_language(ui_language) == Some(Language::German));
    } else if primary == 0x09 {
        assert(tag == "en"@);
        lemma_lower_pair_locale(tag);
        assert(locale_language(tag) == Some(Language::English));
        assert(langid_language(ui_language) == Some(Language::English));
    } else if primary == 0x0a {
        assert(tag == "es"@);
        lemma_lower_pair_locale(tag);
        assert(locale_language(tag) == Some(Language::Spanish));
        assert(langid_language(ui_language) == Some(Language::Spanish));
    } else if primary == 0x0c {
        assert(tag == "fr"@);
        lemma_lower_pair_locale(tag);
        assert(locale_language(tag) == Some(Language::French));
        assert(langid_language(ui_language) == Some(Language::French));
    } else if primary == 0x10 {
        assert(tag == "it"@);
        lemma_lower_pair_locale(tag);
        assert(locale_language(tag) == None::<Language>);
        assert(langid_language(ui_language) == None::<Language>);
    } else if primary == 0x11 {
        assert(tag == "ja"@);
        lemma_lower_pair_locale(tag);
        assert(locale_language(tag) == Some(Language::Japanese));
        assert(langid_language(ui_language) == Some(Language::Japanese));
    } else if primary == 0x12 {
        assert(tag == "ko"@);
        lemma_lower_pair_locale(tag);
        assert(locale_language(tag) == Some(Language::Korean));
        assert(langid_language(ui_language) == Some(Language::Korean));
    } else if primary == 0x13 {
        assert(tag == "nl"@);
        lemma_lower_pair_locale(tag);
        assert(locale_language(tag) == None::<Language>);
        assert(langid_language(ui_language) == None::<Language>);
    } else if primary == 0x19 {
        assert(tag == "ru"@);
        lemma_lower_pair_locale(tag);
        assert(locale_language(tag) == None::<Language>);
        assert(langid_language(ui_language) == None::<Language>);
    } else if primary == 0x1f {
        assert(tag == "tr"@);
        lemma_lower_pair_locale(tag);
        assert(locale_language(tag) == Some(Language::Turkish));
        assert(langid_language(ui_language) == Some(Language::Turkish));
    } else if primary == 0x21 {
        assert(tag == "id"@);
        lemma_lower_pair_locale(tag);
        assert(locale_language(tag) == Some(Language::Indonesian));
        assert(langid_language(ui_language) == Some(Language::Indonesian));
    } else if primary == 0x2a {
        assert(tag == "vi"@);
        lemma_lower_pair_locale(tag);
        assert(locale_language(tag) == Some(Language::Vietnamese));
        assert(langid_language(ui_language) == Some(Language::Vietnamese));
    } else if primary == 0x39 {
        assert(tag == "hi"@);
        lemma_lower_pair_locale(tag);
        assert(locale_language(tag) == Some(Language::Hindi));
        assert(langid_language(ui_language) == Some(Language::Hindi));
    } else if primary == 0x16 {
        assert("pt-PT"@[3] == 'P' && "pt-BR"@[3] == 'B');
        lemma_portuguese_locale(tag);
        assert(langid_language(ui_language) == locale_language(tag));
    } else {
        assert(tag == ""@);
        assert(normalized_locale(tag) =~= Seq::<char>::empty());
        assert(locale_language(tag) == None::<Language>);
        assert(langid_language(ui_language) == None::<Language>);
    }
}

/// The letters of the two-letter language tags.
proof fn lemma_language_tag_letters()
    ensures
        "ar"@.len() == 2 && "ar"@[0] == 'a' && "ar"@[1] == 'r',
        "de"@.len() == 2 && "de"@[0] == 'd' && "de"@[1] == 'e',
        "en"@.len() == 2 && "en"@[0] == 'e' && "en"@[1] == 'n',
        "es"@.len() == 2 && "es"@[0] == 'e' && "es"@[1] == 's',
        "fr"@.len() == 2 && "fr"@[0] == 'f' && "fr"@[1] == 'r',
        "hi"@.len() == 2 && "hi"@[0] == 'h' && "hi"@[1] == 'i',
        "id"@.len() == 2 && "id"@[0] == 'i' && "id"@[1] == 'd',
        "ja"@.len() == 2 && "ja"@[0] == 'j' && "ja"@[1] == 'a',
        "ko"@.len() == 2 && "ko"@[0] == 'k' && "ko"@[1] == 'o',
        "pt"@.len() == 2 && "pt"@[0] == 'p' && "pt"@[1] == 't',
        "tr"@.len() == 2 && "tr"@[0] == 't' && "tr"@[1] == 'r',
        "vi"@.len() == 2 && "vi"@[0] == 'v' && "vi"@[1] == 'i',
        "zh"@.len() == 2 && "zh"@[0] == 'z' && "zh"@[1] == 'h',
        "it"@.len() == 2 && "it"@[0] == 'i' && "it"@[1] == 't',
        "nl"@.len() == 2 && "nl"@[0] == 'n' && "nl"@[1] == 'l',
        "ru"@.len() == 2 && "ru"@[0] == 'r' && "ru"@[1] == 'u',
{
    reveal_strlit("ar");
    reveal_strlit("de");
    reveal_strlit("en");
    reveal_strlit("es");
    reveal_strlit("fr");
    reveal_strlit("hi");
    reveal_strlit("id");
    reveal_strlit("ja");
    reveal_strlit("ko");
    reveal_strlit("pt");
    reveal_strlit("tr");
    reveal_strlit("vi");
    reveal_strlit("zh");
    reveal_strlit("it");
    reveal_strlit("nl");
    reveal_strlit("ru");
}

/// A two-letter lower-case name is its own primary subtag.
proof fn lemma_lower_pair_locale(tag: Seq<char>)
    requires
        tag.len() == 2,
        'a' <= tag[0] <= 'z',
        'a' <= tag[1] <= 'z',
    ensures
        locale_language(tag) == subtag_language(tag, tag),
{
    let n = normalized_locale(tag);
    assert(n =~= tag);
    reveal_with_fuel(primary_subtag, 3);
    assert(primary_subtag(n.drop_first().drop_first()) =~= Seq::<char>::empty());
    assert(primary_subtag(n.drop_first()) =~= seq![tag[1]]);
    assert(primary_subtag(n) =~= tag);
}

/// `pt-BR` and `pt-PT` have the primary subtag `pt`.
proof fn lemma_portuguese_locale(tag: Seq<char>)
    requires
        tag == "pt-BR"@ || tag == "pt-PT"@,
    ensures
        locale_language(tag) == (if tag == "pt-BR"@ { Some(Language::PortugueseBrazil) } else { None::<Language> }),
{
    reveal_strlit("pt-BR");
    reveal_strlit("pt-PT");
    reveal_strlit("pt");
    reveal_strlit("pt-br");
    reveal_strlit("pt-br-");
    reveal_strlit("ar");
    reveal_strlit("de");
    reveal_strlit("en");
    reveal_strlit("es");
    reveal_strlit("fr");
    reveal_strlit("hi");
    reveal_strlit("id");
    reveal_strlit("ja");
    reveal_strlit("ko");
    let n = normalized_locale(tag);
    assert(locale_char('B') == 'b' && locale_char('R') == 'r' && locale_char('P') == 'p' && locale_char('T') == 't');
    if tag == "pt-BR"@ {
        assert(n =~= "pt-br"@);
    } else {
        assert(n =~= seq!['p', 't', '-', 'p', 't']);
        assert(n != "pt-br"@);
    }
    reveal_with_fuel(primary_subtag, 3);
    assert(primary_subtag(n.drop_first().drop_first()) =~= Seq::<char>::empty());
    assert(primary_subtag(n) =~= "pt"@);
    assert(locale_language(tag) == subtag_language("pt"@, n));
    lemma_language_tag_letters();
    if tag == "pt-BR"@ {
        assert(subtag_language("pt"@, n) == Some(Language::PortugueseBrazil));
    } else {
        assert(n.len() < "pt-br-"@.len());
        assert(subtag_language("pt"@, n) == None::<Language>);
    }
}

/// With the automatic choice, two recognized Windows UI languages resolve
/// to the same display language only when they share their primary
/// language: no two languages of the table collapse into one.
pub proof fn lemma_ui_languages_stay_distinct(a: u16, b: u16)
    requires
        langid_language(a) is Some,
        langid_language(b) is Some,
        resolved_language(LanguagePreference::Auto, Some(a), None) == resolved_language(
            LanguagePreference::Auto,
            Some(b),
            None,
        ),
    ensures
        a % 1024 == b % 1024,
{
}

/// Whether the widget starts visible: the saved choice, except that an
/// automatic start with the tray-only view hides it for this run.
pub fn initial_widget_visible(mode: LaunchMode, startup_view: StartupView, saved_visible: bool) -> (b: bool)
    ensures
        b == (saved_visible && !(mode == LaunchMode::Startup && startup_view == StartupView::TrayOnly)),
{
    saved_visible && !(mode == LaunchMode::Startup && startup_view == StartupView::TrayOnly)
}


/// The launch mode of a command line (program name excluded): `--startup`
/// or `--diagnose` at most once; any other argument is refused, and so is a
/// second mode, an unsupported argument being reported first.
pub open spec fn parse_from(arguments: Seq<Seq<char>>, i: int, mode: LaunchMode) -> Result<LaunchMode, Seq<char>>
    decreases arguments.len() - i,
{
    if i < 0 || i >= arguments.len() {
        Ok(mode)
    } else if arguments[i] != "--startup"@ && arguments[i] != "--diagnose"@ {
        Err("unsupported argument"@)
    } else if mode != LaunchMode::Normal {
        Err("multiple launch modes"@)
    } else {
        parse_from(arguments, i + 1, if arguments[i] == "--startup"@ {
            LaunchMode::Startup
        } else {
            LaunchMode::Diagnose
        })
    }
}

impl LaunchMode {
    /// Parses the command-line arguments strictly.
    pub fn parse(arguments: &[&str]) -> (r: Result<Self, &'static str>)
        ensures
            match (r, parse_from(arguments@.map_values(|a: &str| a@), 0, LaunchMode::Normal)) {
                (Ok(mode), Ok(expected)) => mode == expected,
                (Err(message), Err(expected)) => message@ == expected,
                _ => false,
            },
    {
        let ghost args = arguments@.map_values(|a: &str| a@);
        let mut mode = LaunchMode::Normal;
        let mut i: usize = 0;
        while i < arguments.len()
            invariant
                i <= arguments.len(),
                args == arguments@.map_values(|a: &str| a@),
                parse_from(args, 0, LaunchMode::Normal) == parse_from(args, i as int, mode),
            decreases arguments.len() - i,
        {
            let argument = arguments[i];
            assert(args[i as int] == argument@);
            let next = if str_eq(argument, "--startup") {
                LaunchMode::Startup
            } else if str_eq(argument, "--diagnose") {
                LaunchMode::Diagnose
            } else {
                return Err("unsupported argument");
            };
            if mode != LaunchMode::Normal {
                return Err("multiple launch modes");
            }
            mode = next;
            i += 1;
        }
        Ok(mode)
    }
}

/// A character that may appear in a GitHub owner, repository or tag
/// segment: ASCII letters and digits, `-`, `_` and `.`.
pub open spec fn github_segment_char(c: char) -> bool {
    ('a' <= c <= 'z') || ('A' <= c <= 'Z') || ('0' <= c <= '9') || c == '-' || c == '_' || c == '.'
}

/// A non-empty segment of allowed characters that is neither `.` nor `..`.
pub open spec fn valid_segment(value: Seq<char>) -> bool {
    &&& value.len() > 0
    &&& value != "."@
    &&& value != ".."@
    &&& forall|i: int| 0 <= i < value.len() ==> github_segment_char(#[trigger] value[i])
}

fn valid_github_segment(value: &Vec<char>) -> (b: bool)
    ensures
        b == valid_segment(value@),
{
    if value.len() == 0 || seq_eq(value, ".") || seq_eq(value, "..") {
        return false;
    }
    let mut i: usize = 0;
    while i < value.len()
        invariant
            i <= value.len(),
            forall|k: int| 0 <= k < i ==> github_segment_char(#[trigger] value@[k]),
        decreases value.len() - i,
    {
        let c = value[i];
        if !(('a' <= c && c <= 'z') || ('A' <= c && c <= 'Z') || ('0' <= c && c <= '9') || c == '-'
            || c == '_' || c == '.') {
            return false;
        }
        i += 1;
    }
    true
}

/// The pieces of `rest` split at each `/`, the first continuing `current`.
pub open spec fn split_slash_from(rest: Seq<char>, current: Seq<char>) -> Seq<Seq<char>>
    decreases rest.len(),
{
    if rest.len() == 0 {
        seq![current]
    } else if rest[0] == '/' {
        seq![current] + split_slash_from(rest.drop_first(), Seq::empty())
    } else {
        split_slash_from(rest.drop_first(), current.push(rest[0]))
    }
}

/// `s` split at each `/`, as `str::split('/')` splits it.
pub open spec fn split_slash(s: Seq<char>) -> Seq<Seq<char>> {
    split_slash_from(s, Seq::empty())
}

fn split_on_slash(s: &Vec<char>) -> (parts: Vec<Vec<char>>)
    ensures
        parts@.map_values(|p: Vec<char>| p@) == split_slash(s@),
{
    let mut parts: Vec<Vec<char>> = Vec::new();
    let mut current: Vec<char> = Vec::new();
    let mut i: usize = 0;
    assert(s@.skip(0) =~= s@);
    assert(parts@.map_values(|p: Vec<char>| p@) =~= Seq::<Seq<char>>::empty());
    assert(Seq::<Seq<char>>::empty() + split_slash_from(s@, current@) =~= split_slash(s@));
    while i < s.len()
        invariant
            i <= s.len(),
            parts@.map_values(|p: Vec<char>| p@) + split_slash_from(s@.skip(i as int), current@) == split_slash(s@),
        decreases s.len() - i,
    {
        let ghost before = parts@.map_values(|p: Vec<char>| p@);
        let ghost cur = current@;
        assert(s@.skip(i as int).drop_first() =~= s@.skip(i + 1));
        if s[i] == '/' {
            let done = current;
            parts.push(done);
            current = Vec::new();
            assert(parts@.map_values(|p: Vec<char>| p@) =~= before.push(cur));
            assert(split_slash_from(s@.skip(i as int), cur) =~= seq![cur] + split_slash_from(s@.skip(i + 1), Seq::empty()));
            assert(before + (seq![cur] + split_slash_from(s@.skip(i + 1), current@)) =~= before.push(cur) + split_slash_from(s@.skip(i + 1), current@));
        } else {
            current.push(s[i]);
        }
        i += 1;
    }
    let ghost before = parts@.map_values(|p: Vec<char>| p@);
    let ghost cur = current@;
    assert(s@.skip(i as int) =~= Seq::<char>::empty());
    parts.push(current);
    assert(parts@.map_values(|p: Vec<char>| p@) =~= before.push(cur));
    assert(before + seq![cur] =~= before.push(cur));
    parts
}

/// A URL character that a release page URL may not contain.
pub open spec fn forbidden_url_char(c: char) -> bool {
    c == '?' || c == '#' || c == '@' || c == '\r' || c == '\n' || c == '\0'
}

/// Whether `url` is exactly a GitHub release tag page,
/// `https://github.com/<owner>/<repository>/releases/tag/<tag>`, with no
/// query, fragment, credentials, line breaks or further path.
pub open spec fn exact_github_tag_page(url: Seq<char>) -> bool {
    let prefix = "https://github.com/"@;
    let parts = split_slash(url.skip(prefix.len() as int));
    &&& url.len() >= prefix.len()
    &&& url.take(prefix.len() as int) == prefix
    &&& forall|i: int| 0 <= i < url.len() ==> !forbidden_url_char(#[trigger] url[i])
    &&& parts.len() == 5
    &&& valid_segment(parts[0])
    &&& valid_segment(parts[1])
    &&& parts[2] == "releases"@
    &&& parts[3] == "tag"@
    &&& valid_segment(parts[4])
}

/// Checks that a URL is exactly a GitHub release tag page.
pub fn is_exact_github_tag_page(url: &str) -> (b: bool)
    ensures
        b == exact_github_tag_page(url@),
{
    let chars = chars_of(url);
    let prefix = chars_of("https://github.com/");
    if !has_prefix(&chars, "https://github.com/") {
        return false;
    }
    let mut i: usize = 0;
    while i < chars.len()
        invariant
            chars@ == url@,
            i <= chars.len(),
            forall|k: int| 0 <= k < i ==> !forbidden_url_char(#[trigger] chars@[k]),
        decreases chars.len() - i,
    {
        let c = chars[i];
        if c == '?' || c == '#' || c == '@' || c == '\r' || c == '\n' || c == '\0' {
            assert(forbidden_url_char(url@[i as int]));
            return false;
        }
        i += 1;
    }
    let mut path: Vec<char> = Vec::new();
    let mut k: usize = prefix.len();
    while k < chars.len()
        invariant
            prefix@ == "https://github.com/"@,
            prefix.len() <= k <= chars.len(),
            path@ == chars@.subrange(prefix.len() as int, k as int),
        decreases chars.len() - k,
    {
        path.push(chars[k]);
        k += 1;
        assert(path@ =~= chars@.subrange(prefix.len() as int, k as int));
    }
    assert(path@ =~= chars@.skip(prefix.len() as int));
    let parts = split_on_slash(&path);
    let ghost views = parts@.map_values(|p: Vec<char>| p@);
    if parts.len() != 5 {
        return false;
    }
    assert(views[0] == parts@[0]@ && views[1] == parts@[1]@ && views[2] == parts@[2]@ && views[3] == parts@[3]@ && views[4] == parts@[4]@);
    valid_github_segment(&parts[0]) && valid_github_segment(&parts[1]) && seq_eq(&parts[2], "releases")
        && seq_eq(&parts[3], "tag") && valid_github_segment(&parts[4])
}


/// The consumption pace of the selected usage window, as the application
/// judged it.
#[derive(Clone, Copy, Debug, PartialEq, Eq, Structural)]
pub enum ConsumptionPaceState {
    Comfortable,
    Normal,
    Fast,
    Exhausted,
    Measuring,
    InsufficientActivity,
    Unavailable,
    Disabled,
}

/// A typed action that the Win32 UI hands to the application layer.
#[derive(Debug, PartialEq, Eq)]
pub enum UiAction {
    Refresh,
    SetRefreshInterval(u32),
    ToggleAutostart,
    SetStartupView(StartupView),
    RefreshWithAuth,
    Login,
    ToggleAutoAuthRefresh,
    SetLanguage(LanguagePreference),
    RunDiagnostics,
    CheckForUpdates,
    ToggleWidget,
    ToggleShowRemaining,
    ToggleUsageForecast,
    ClearUsageHistory,
    SetTaskbarDisplayMode(TaskbarDisplayMode),
    OpenAddUsageProfile,
    OpenManageUsageProfiles,
    SelectUsageProfile(UsageProfileId),
    AddUsageProfile(String),
    RenameUsageProfile(UsageProfileId, String),
    LoginUsageProfile(UsageProfileId),
    LogoutUsageProfile(UsageProfileId),
    DeleteUsageProfile(UsageProfileId),
    Exit,
}

impl Clone for UiAction {
    fn clone(&self) -> (r: Self)
        ensures
            r == *self,
    {
        match self {
            UiAction::Refresh => UiAction::Refresh,
            UiAction::SetRefreshInterval(m) => UiAction::SetRefreshInterval(*m),
            UiAction::ToggleAutostart => UiAction::ToggleAutostart,
            UiAction::SetStartupView(v) => UiAction::SetStartupView(*v),
            UiAction::RefreshWithAuth => UiAction::RefreshWithAuth,
            UiAction::Login => UiAction::Login,
            UiAction::ToggleAutoAuthRefresh => UiAction::ToggleAutoAuthRefresh,
            UiAction::SetLanguage(l) => UiAction::SetLanguage(*l),
            UiAction::RunDiagnostics => UiAction::RunDiagnostics,
            UiAction::CheckForUpdates => UiAction::CheckForUpdates,
            UiAction::ToggleWidget => UiAction::ToggleWidget,
            UiAction::ToggleShowRemaining => UiAction::ToggleShowRemaining,
            UiAction::ToggleUsageForecast => UiAction::ToggleUsageForecast,
            UiAction::ClearUsageHistory => UiAction::ClearUsageHistory,
            UiAction::SetTaskbarDisplayMode(m) => UiAction::SetTaskbarDisplayMode(*m),
            UiAction::OpenAddUsageProfile => UiAction::OpenAddUsageProfile,
            UiAction::OpenManageUsageProfiles => UiAction::OpenManageUsageProfiles,
            UiAction::SelectUsageProfile(id) => UiAction::SelectUsageProfile(*id),
            UiAction::AddUsageProfile(label) => UiAction::AddUsageProfile(label.clone()),
            UiAction::RenameUsageProfile(id, label) => UiAction::RenameUsageProfile(*id, label.clone()),
            UiAction::LoginUsageProfile(id) => UiAction::LoginUsageProfile(*id),
            UiAction::LogoutUsageProfile(id) => UiAction::LogoutUsageProfile(*id),
            UiAction::DeleteUsageProfile(id) => UiAction::DeleteUsageProfile(*id),
            UiAction::Exit => UiAction::Exit,
        }
    }
}

/// The UI action of a Win32 menu identifier, if it names one.
pub open spec fn menu_action_of(menu_id: u16) -> Option<UiAction> {
    if menu_id == MENU_REFRESH {
        Some(UiAction::Refresh)
    } else if menu_id == MENU_INTERVAL_1 {
        Some(UiAction::SetRefreshInterval(1))
    } else if menu_id == MENU_INTERVAL_5 {
        Some(UiAction::SetRefreshInterval(5))
    } else if menu_id == MENU_INTERVAL_10 {
        Some(UiAction::SetRefreshInterval(10))
    } else if menu_id == MENU_INTERVAL_15 {
        Some(UiAction::SetRefreshInterval(15))
    } else if menu_id == MENU_INTERVAL_30 {
        Some(UiAction::SetRefreshInterval(30))
    } else if menu_id == MENU_AUTOSTART {
        Some(UiAction::ToggleAutostart)
    } else if menu_id == MENU_STARTUP_WIDGET {
        Some(UiAction::SetStartupView(StartupView::Widget))
    } else if menu_id == MENU_STARTUP_TRAY {
        Some(UiAction::SetStartupView(StartupView::TrayOnly))
    } else if menu_id == MENU_AUTH_REFRESH {
        Some(UiAction::RefreshWithAuth)
    } else if menu_id == MENU_LOGIN {
        Some(UiAction::Login)
    } else if menu_id == MENU_AUTO_AUTH_REFRESH {
        Some(UiAction::ToggleAutoAuthRefresh)
    } else if menu_id == MENU_LANGUAGE_AUTO {
        Some(UiAction::SetLanguage(LanguagePreference::Auto))
    } else if menu_id == MENU_LANGUAGE_KOREAN {
        Some(UiAction::SetLanguage(LanguagePreference::Korean))
    } else if menu_id == MENU_LANGUAGE_ENGLISH {
        Some(UiAction::SetLanguage(LanguagePreference::English))
    } else if menu_id == MENU_LANGUAGE_SPANISH {
        Some(UiAction::SetLanguage(LanguagePreference::Spanish))
    } else if menu_id == MENU_LANGUAGE_PORTUGUESE_BRAZIL {
        Some(UiAction::SetLanguage(LanguagePreference::PortugueseBrazil))
    } else if menu_id == MENU_LANGUAGE_INDONESIAN {
        Some(UiAction::SetLanguage(LanguagePreference::Indonesian))
    } else if menu_id == MENU_LANGUAGE_JAPANESE {
        Some(UiAction::SetLanguage(LanguagePreference::Japanese))
    } else if menu_id == MENU_LANGUAGE_HINDI {
        Some(UiAction::SetLanguage(LanguagePreference::Hindi))
    } else if menu_id == MENU_LANGUAGE_GERMAN {
        Some(UiAction::SetLanguage(LanguagePreference::German))
    } else if menu_id == MENU_LANGUAGE_FRENCH {
        Some(UiAction::SetLanguage(LanguagePreference::French))
    } else if menu_id == MENU_LANGUAGE_VIETNAMESE {
        Some(UiAction::SetLanguage(LanguagePreference::Vietnamese))
    } else if menu_id == MENU_LANGUAGE_TURKISH {
        Some(UiAction::SetLanguage(LanguagePreference::Turkish))
    } else if menu_id == MENU_LANGUAGE_ARABIC {
        Some(UiAction::SetLanguage(LanguagePreference::Arabic))
    } else if menu_id == MENU_DIAGNOSTICS {
        Some(UiAction::RunDiagnostics)
    } else if menu_id == MENU_UPDATE_CHECK {
        Some(UiAction::CheckForUpdates)
    } else if menu_id == MENU_WIDGET_VISIBLE {
        Some(UiAction::ToggleWidget)
    } else if menu_id == MENU_SHOW_REMAINING {
        Some(UiAction::ToggleShowRemaining)
    } else if menu_id == MENU_USAGE_FORECAST_TOGGLE {
        Some(UiAction::ToggleUsageForecast)
    } else if menu_id == MENU_USAGE_FORECAST_CLEAR_HISTORY {
        Some(UiAction::ClearUsageHistory)
    } else if menu_id == MENU_TASKBAR_ALL {
        Some(UiAction::SetTaskbarDisplayMode(TaskbarDisplayMode::All))
    } else if menu_id == MENU_TASKBAR_PRIMARY {
        Some(UiAction::SetTaskbarDisplayMode(TaskbarDisplayMode::Primary))
    } else if menu_id == MENU_ADD_USAGE_PROFILE {
        Some(UiAction::OpenAddUsageProfile)
    } else if menu_id == MENU_MANAGE_USAGE_PROFILES {
        Some(UiAction::OpenManageUsageProfiles)
    } else if menu_id == MENU_EXIT {
        Some(UiAction::Exit)
    } else {
        None
    }
}

/// Converts a Win32 menu identifier into its typed UI action.
pub fn menu_action(menu_id: u16) -> (r: Option<UiAction>)
    ensures
        r == menu_action_of(menu_id),
{
    if menu_id == MENU_REFRESH {
        Some(UiAction::Refresh)
    } else if menu_id == MENU_INTERVAL_1 {
        Some(UiAction::SetRefreshInterval(1))
    } else if menu_id == MENU_INTERVAL_5 {
        Some(UiAction::SetRefreshInterval(5))
    } else if menu_id == MENU_INTERVAL_10 {
        Some(UiAction::SetRefreshInterval(10))
    } else if menu_id == MENU_INTERVAL_15 {
        Some(UiAction::SetRefreshInterval(15))
    } else if menu_id == MENU_INTERVAL_30 {
        Some(UiAction::SetRefreshInterval(30))
    } else if menu_id == MENU_AUTOSTART {
        Some(UiAction::ToggleAutostart)
    } else if menu_id == MENU_STARTUP_WIDGET {
        Some(UiAction::SetStartupView(StartupView::Widget))
    } else if menu_id == MENU_STARTUP_TRAY {
        Some(UiAction::SetStartupView(StartupView::TrayOnly))
    } else if menu_id == MENU_AUTH_REFRESH {
        Some(UiAction::RefreshWithAuth)
    } else if menu_id == MENU_LOGIN {
        Some(UiAction::Login)
    } else if menu_id == MENU_AUTO_AUTH_REFRESH {
        Some(UiAction::ToggleAutoAuthRefresh)
    } else if menu_id == MENU_LANGUAGE_AUTO {
        Some(UiAction::SetLanguage(LanguagePreference::Auto))
    } else if menu_id == MENU_LANGUAGE_KOREAN {
        Some(UiAction::SetLanguage(LanguagePreference::Korean))
    } else if menu_id == MENU_LANGUAGE_ENGLISH {
        Some(UiAction::SetLanguage(LanguagePreference::English))
    } else if menu_id == MENU_LANGUAGE_SPANISH {
        Some(UiAction::SetLanguage(LanguagePreference::Spanish))
    } else if menu_id == MENU_LANGUAGE_PORTUGUESE_BRAZIL {
        Some(UiAction::SetLanguage(LanguagePreference::PortugueseBrazil))
    } else if menu_id == MENU_LANGUAGE_INDONESIAN {
        Some(UiAction::SetLanguage(LanguagePreference::Indonesian))
    } else if menu_id == MENU_LANGUAGE_JAPANESE {
        Some(UiAction::SetLanguage(LanguagePreference::Japanese))
    } else if menu_id == MENU_LANGUAGE_HINDI {
        Some(UiAction::SetLanguage(LanguagePreference::Hindi))
    } else if menu_id == MENU_LANGUAGE_GERMAN {
        Some(UiAction::SetLanguage(LanguagePreference::German))
    } else if menu_id == MENU_LANGUAGE_FRENCH {
        Some(UiAction::SetLanguage(LanguagePreference::French))
    } else if menu_id == MENU_LANGUAGE_VIETNAMESE {
        Some(UiAction::SetLanguage(LanguagePreference::Vietnamese))
    } else if menu_id == MENU_LANGUAGE_TURKISH {
        Some(UiAction::SetLanguage(LanguagePreference::Turkish))
    } else if menu_id == MENU_LANGUAGE_ARABIC {
        Some(UiAction::SetLanguage(LanguagePreference::Arabic))
    } else if menu_id == MENU_DIAGNOSTICS {
        Some(UiAction::RunDiagnostics)
    } else if menu_id == MENU_UPDATE_CHECK {
        Some(UiAction::CheckForUpdates)
    } else if menu_id == MENU_WIDGET_VISIBLE {
        Some(UiAction::ToggleWidget)
    } else if menu_id == MENU_SHOW_REMAINING {
        Some(UiAction::ToggleShowRemaining)
    } else if menu_id == MENU_USAGE_FORECAST_TOGGLE {
        Some(UiAction::ToggleUsageForecast)
    } else if menu_id == MENU_USAGE_FORECAST_CLEAR_HISTORY {
        Some(UiAction::ClearUsageHistory)
    } else if menu_id == MENU_TASKBAR_ALL {
        Some(UiAction::SetTaskbarDisplayMode(TaskbarDisplayMode::All))
    } else if menu_id == MENU_TASKBAR_PRIMARY {
        Some(UiAction::SetTaskbarDisplayMode(TaskbarDisplayMode::Primary))
    } else if menu_id == MENU_ADD_USAGE_PROFILE {
        Some(UiAction::OpenAddUsageProfile)
    } else if menu_id == MENU_MANAGE_USAGE_PROFILES {
        Some(UiAction::OpenManageUsageProfiles)
    } else if menu_id == MENU_EXIT {
        Some(UiAction::Exit)
    } else {
        None
    }
}


/// Law of the menu: each command identifier of the tray menu maps to one
/// action, and no other identifier is a command.
pub proof fn lemma_menu_action_total_on_commands(menu_id: u16)
    ensures
        menu_action_of(menu_id) is None <==> !(menu_id == MENU_REFRESH || (121 <= menu_id <= 150 && (menu_id == 121 || menu_id == 125 || menu_id == 130 || menu_id == 135 || menu_id == 150)) || menu_id == MENU_AUTOSTART || menu_id == MENU_STARTUP_WIDGET || menu_id == MENU_STARTUP_TRAY || (180 <= menu_id <= 182) || (200 <= menu_id <= 212) || menu_id == MENU_DIAGNOSTICS || menu_id == MENU_UPDATE_CHECK || (240 <= menu_id <= 243) || menu_id == MENU_EXIT || menu_id == 260 || menu_id == 261 || menu_id == 270 || menu_id == 271),
{
}

/// The forecast state of a usage row, with the localized line to show.
#[derive(Clone, Debug, PartialEq, Eq)]
pub enum ForecastView {
    Hidden,
    Collecting { line: String },
    InsufficientActivity { line: String },
    ForecastAvailable { line: String },
    AlreadyExhausted { line: String },
    Stale { line: String },
    Invalid { line: String },
}

/// The line of a forecast, if it shows one.
pub open spec fn forecast_line(view: ForecastView) -> Option<Seq<char>> {
    match view {
        ForecastView::Hidden => None,
        ForecastView::Collecting { line } => Some(line@),
        ForecastView::InsufficientActivity { line } => Some(line@),
        ForecastView::ForecastAvailable { line } => Some(line@),
        ForecastView::AlreadyExhausted { line } => Some(line@),
        ForecastView::Stale { line } => Some(line@),
        ForecastView::Invalid { line } => Some(line@),
    }
}

impl ForecastView {
    /// The localized line to append to a tooltip; none when hidden.
    pub fn line(&self) -> (r: Option<&str>)
        ensures
            match (r, forecast_line(*self)) {
                (Some(a), Some(b)) => a@ == b,
                (None, None) => true,
                _ => false,
            },
    {
        match self {
            ForecastView::Hidden => None,
            ForecastView::Collecting { line } => Some(line.as_str()),
            ForecastView::InsufficientActivity { line } => Some(line.as_str()),
            ForecastView::ForecastAvailable { line } => Some(line.as_str()),
            ForecastView::AlreadyExhausted { line } => Some(line.as_str()),
            ForecastView::Stale { line } => Some(line.as_str()),
            ForecastView::Invalid { line } => Some(line.as_str()),
        }
    }
}

/// The query state that the taskbar shows.
#[derive(Clone, Copy, Debug, PartialEq, Eq, Structural)]
pub enum WidgetDataState {
    Loading,
    Ready,
    Error,
}

/// Non-sensitive copy of the settings that the menus and windows need.
#[derive(Clone, Debug, PartialEq, Eq)]
pub struct UiSettings {
    pub widget_visible: bool,
    pub refresh_interval_minutes: u32,
    pub start_with_windows: bool,
    pub startup_view: StartupView,
    pub auto_auth_refresh: bool,
    pub language: LanguagePreference,
    pub resolved_language: Language,
    pub taskbar_offset: i32,
    pub taskbar_display_mode: TaskbarDisplayMode,
    pub update_status: UpdatePresentationStatus,
    pub show_remaining_percent: bool,
    pub usage_forecast_enabled: bool,
    pub login_required: bool,
    pub usage_profiles: Vec<UsageProfileView>,
    pub usage_profile_mutation_pending: bool,
}

/// The taskbar tooltip with the selected profile and the note that the CLI
/// sign-in is unchanged placed before the usage details.
pub open spec fn profile_tooltip(label: Seq<char>, details: Seq<char>, language: Language) -> Seq<char> {
    text_of(LocalizationKey::MenuUsageProfiles, language) + ": "@ + label + "\n"@ + text_of(
        LocalizationKey::UsageProfileCliUnchanged,
        language,
    ) + "\n\n"@ + details
}

/// Prefixes the taskbar tooltip with the profile label and the CLI note.
pub fn profile_taskbar_tooltip(usage_profile_label: &str, details: &str, language: Language) -> (r: String)
    ensures
        r@ == profile_tooltip(usage_profile_label@, details@, language),
{
    let mut text = string_from(localized_text(LocalizationKey::MenuUsageProfiles, language));
    text.append(": ");
    text.append(usage_profile_label);
    text.append("\n");
    text.append(localized_text(LocalizationKey::UsageProfileCliUnchanged, language));
    text.append("\n\n");
    text.append(details);
    text
}


/// The host part of a URL after its scheme: everything before the first
/// `/`, `?` or `#`.
pub open spec fn authority_of(rest: Seq<char>) -> Seq<char>
    decreases rest.len(),
{
    if rest.len() == 0 || rest[0] == '/' || rest[0] == '?' || rest[0] == '#' {
        Seq::empty()
    } else {
        seq![rest[0]] + authority_of(rest.drop_first())
    }
}

/// A character lower-cased in ASCII.
pub open spec fn ascii_lower(c: char) -> char {
    if 'A' <= c <= 'Z' {
        ((c as u32) + 32) as char
    } else {
        c
    }
}

/// Whether `url` is a ChatGPT browser login URL from the app server: at most
/// 8 KiB, no line breaks or NUL, HTTPS, and a host of `chatgpt.com` or
/// `auth.openai.com` (in any ASCII case) with no credentials or port; the
/// query is kept as it is.
pub open spec fn valid_chatgpt_login_url(url: &str) -> bool {
    let chars = url@;
    let scheme = "https://"@;
    let authority = authority_of(chars.skip(scheme.len() as int));
    let host = authority.map_values(|c: char| ascii_lower(c));
    &&& url.len() <= 8 * 1024
    &&& forall|i: int| 0 <= i < chars.len() ==> (#[trigger] chars[i] != '\r' && chars[i] != '\n' && chars[i] != '\0')
    &&& chars.len() >= scheme.len()
    &&& chars.take(scheme.len() as int) == scheme
    &&& authority.len() > 0
    &&& forall|i: int| 0 <= i < authority.len() ==> (#[trigger] authority[i] != '@' && authority[i] != ':')
    &&& (host == "chatgpt.com"@ || host == "auth.openai.com"@)
}

/// Checks a browser login URL before it is opened.
pub fn is_valid_chatgpt_login_url(url: &str) -> (b: bool)
    ensures
        b == valid_chatgpt_login_url(url),
{
    if url.len() > 8 * 1024 {
        return false;
    }
    let chars = chars_of(url);
    let mut i: usize = 0;
    while i < chars.len()
        invariant
            chars@ == url@,
            i <= chars.len(),
            forall|k: int| 0 <= k < i ==> (#[trigger] chars@[k] != '\r' && chars@[k] != '\n' && chars@[k] != '\0'),
        decreases chars.len() - i,
    {
        let c = chars[i];
        if c == '\r' || c == '\n' || c == '\0' {
            assert(!(url@[i as int] != '\r' && url@[i as int] != '\n' && url@[i as int] != '\0'));
            return false;
        }
        i += 1;
    }
    if !has_prefix(&chars, "https://") {
        return false;
    }
    let scheme_len = chars_of("https://").len();
    assert(scheme_len == "https://"@.len());
    let ghost rest = chars@.skip(scheme_len as int);
    let mut authority: Vec<char> = Vec::new();
    let mut host: Vec<char> = Vec::new();
    let mut k: usize = scheme_len;
    while k < chars.len() && chars[k] != '/' && chars[k] != '?' && chars[k] != '#'
        invariant
            scheme_len <= k <= chars.len(),
            chars@ == url@,
            scheme_len == "https://"@.len(),
            rest == chars@.skip(scheme_len as int),
            authority@ + authority_of(chars@.skip(k as int)) == authority_of(rest),
            host@ == authority@.map_values(|c: char| ascii_lower(c)),
            forall|j: int| 0 <= j < authority@.len() ==> (#[trigger] authority@[j] != '@' && authority@[j] != ':'),
        decreases chars.len() - k,
    {
        let c = chars[k];
        if c == '@' || c == ':' {
            proof {
                let tail = chars@.skip(k as int);
                assert(tail[0] == c);
                assert(authority_of(tail) == seq![c] + authority_of(tail.drop_first()));
                let whole = authority_of(rest);
                assert(whole[authority@.len() as int] == c);
                assert(rest == url@.skip("https://"@.len() as int));
                assert(!(whole[authority@.len() as int] != '@' && whole[authority@.len() as int] != ':'));
            }
            return false;
        }
        authority.push(c);
        host.push(if 'A' <= c && c <= 'Z' {
            ((c as u8) + 32) as char
        } else {
            c
        });
        proof {
            assert(chars@.skip(k as int).drop_first() =~= chars@.skip(k + 1));
            assert(authority@ + authority_of(chars@.skip(k + 1)) =~= authority@.drop_last() + authority_of(chars@.skip(k as int)));
            assert(host@ =~= authority@.map_values(|c: char| ascii_lower(c)));
        }
        k += 1;
    }
    assert(authority@ =~= authority_of(rest)) by {
        assert(authority_of(chars@.skip(k as int)) =~= Seq::<char>::empty());
    }
    if authority.len() == 0 {
        return false;
    }
    seq_eq(&host, "chatgpt.com") || seq_eq(&host, "auth.openai.com")
}

} // verus!
