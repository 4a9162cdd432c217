//! Values shared by the whole application: languages, settings choices and
//! usage-profile identities.

use vstd::prelude::*;

verus! {

/// Maximum number of usage profiles, the system profile included.
pub const MAX_USAGE_PROFILES: usize = 8;

/// A display language of the user interface.
#[derive(Clone, Copy, Debug, PartialEq, Eq, Structural)]
pub enum Language {
    Korean,
    English,
    Spanish,
    PortugueseBrazil,
    Indonesian,
    Japanese,
    Hindi,
    German,
    French,
    Vietnamese,
    Turkish,
    Arabic,
}

/// The stored language choice; `Auto` follows the Windows UI language.
#[derive(Clone, Copy, Debug, PartialEq, Eq, Structural)]
pub enum LanguagePreference {
    Auto,
    Korean,
    English,
    Spanish,
    PortugueseBrazil,
    Indonesian,
    Japanese,
    Hindi,
    German,
    French,
    Vietnamese,
    Turkish,
    Arabic,
}

/// What an automatic start at Windows sign-in shows.
#[derive(Clone, Copy, Debug, PartialEq, Eq, Structural)]
pub enum StartupView {
    Widget,
    TrayOnly,
}

/// On which monitors' taskbars the widget appears.
#[derive(Clone, Copy, Debug, PartialEq, Eq, Structural)]
pub enum TaskbarDisplayMode {
    All,
    Primary,
}

/// Stable identity of a usage profile: the system profile or a managed one.
#[derive(Clone, Copy, Debug, PartialEq, Eq, Structural)]
pub enum UsageProfileId {
    System,
    Managed(u32),
}

/// What the update check currently shows.
#[derive(Clone, Copy, Debug, PartialEq, Eq, Structural)]
pub enum UpdatePresentationStatus {
    Idle,
    Checking,
    Available,
    Current,
    Failed,
}

} // verus!
