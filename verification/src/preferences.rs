//! Persisted user preferences and the store that saves them.

use vstd::prelude::*;

verus! {

/// Light or dark appearance.
#[derive(Debug, Clone, Copy, PartialEq, Eq, Structural)]
pub enum ThemeMode {
    Light,
    Dark,
}

/// What the app persists between launches.
#[derive(Debug, Clone, Copy, PartialEq, Eq, Structural)]
pub struct AppPreferences {
    pub theme_mode: ThemeMode,
    pub onboarding_completed: bool,
}

/// The preferences of a first launch: dark theme, onboarding not done.
pub open spec fn default_preferences() -> AppPreferences {
    AppPreferences { theme_mode: ThemeMode::Dark, onboarding_completed: false }
}

impl Default for AppPreferences {
    fn default() -> (r: Self)
        ensures
            r == default_preferences(),
    {
        AppPreferences { theme_mode: ThemeMode::Dark, onboarding_completed: false }
    }
}

/// Why preferences could not be saved.
#[derive(Debug, Clone, PartialEq, Eq)]
pub struct PreferencesError {
    pub message: String,
}

/// Where preferences are saved (a file, or memory in tests).
pub trait PreferencesStore {
    /// Whether a save of `preferences` may answer `r`: each store says what
    /// its saves do (a file store may fail on any save).
    spec fn saved(&self, preferences: AppPreferences, r: Result<(), PreferencesError>) -> bool;

    /// Saves `preferences`.
    fn save(&self, preferences: &AppPreferences) -> (r: Result<(), PreferencesError>)
        ensures
            self.saved(*preferences, r),
    ;
}

} // verus!
