//! The system theme choice read from the registry.

use vstd::prelude::*;

verus! {

/// Whether the registry value `SystemUsesLightTheme` selects the light theme:
/// only a present, non-zero value does; a missing value keeps the dark theme.
pub fn light_theme_from_registry_value(value: Option<u32>) -> (light: bool)
    ensures
        light == (value matches Some(v) && v != 0),
{
    match value {
        Some(v) => v != 0,
        None => false,
    }
}

} // verus!
