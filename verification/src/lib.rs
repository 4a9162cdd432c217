//! Platform-independent core of a Windows usage monitor: geometry, layout,
//! dialog state machines, menus and the small policies around them.

pub mod domain;
pub mod localization;
pub mod profile_label;
pub mod text;
pub mod windows;

pub use domain::{
    Language, LanguagePreference, StartupView, TaskbarDisplayMode, UpdatePresentationStatus,
    UsageProfileId, MAX_USAGE_PROFILES,
};
pub use localization::{localized_text, LocalizationKey};
