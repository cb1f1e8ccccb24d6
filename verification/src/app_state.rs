//! Application state held at the composition root.

use vstd::prelude::*;

use crate::preferences::{
    default_preferences, AppPreferences, PreferencesError, PreferencesStore, ThemeMode,
};
use crate::welcome::WelcomeOutcome;

verus! {

/// Welcome window width (960×740 landing layout).
pub const WELCOME_WINDOW_WIDTH: u32 = 960;

/// Welcome window height.
pub const WELCOME_WINDOW_HEIGHT: u32 = 740;

/// Home window width after welcome (960×740 → 1280×800).
pub const HOME_WINDOW_WIDTH: u32 = 1280;

/// Home window height after welcome.
pub const HOME_WINDOW_HEIGHT: u32 = 800;

/// Top-level screen routing enum.
#[derive(Debug, Clone, Copy, PartialEq, Eq, Structural)]
pub enum ActiveScreen {
    Welcome,
    Home,
}

/// Window dimensions to apply when welcome completes.
#[derive(Debug, Clone, Copy, PartialEq, Eq, Structural)]
pub struct WindowResizeIntent {
    pub width: u32,
    pub height: u32,
}

/// Global application state: routing and preferences.
#[derive(Debug, Clone, Copy, PartialEq, Eq, Structural)]
pub struct AppState {
    pub active_screen: ActiveScreen,
    pub preferences: AppPreferences,
    pub pending_window_resize: Option<WindowResizeIntent>,
}

/// The screen a launch opens on: home once onboarding is done, else welcome.
pub open spec fn boot_screen_for(preferences: AppPreferences) -> ActiveScreen {
    if preferences.onboarding_completed {
        ActiveScreen::Home
    } else {
        ActiveScreen::Welcome
    }
}

/// The screen a launch opens on.
pub fn boot_screen(preferences: &AppPreferences) -> (r: ActiveScreen)
    ensures
        r == boot_screen_for(*preferences),
{
    if preferences.onboarding_completed {
        ActiveScreen::Home
    } else {
        ActiveScreen::Welcome
    }
}

impl AppState {
    /// The state after persisting onboarding completion: preferences say it
    /// is done and the home window size is queued; the screen stays.
    pub open spec fn completion_persisted(self, after: Self) -> bool {
        after == (AppState {
            preferences: AppPreferences { onboarding_completed: true, ..self.preferences },
            pending_window_resize: Some(
                WindowResizeIntent { width: HOME_WINDOW_WIDTH, height: HOME_WINDOW_HEIGHT },
            ),
            ..self
        })
    }

    /// The state after a completed welcome: completion persisted, then home.
    pub open spec fn welcome_completed(self, after: Self) -> bool {
        after == (AppState {
            active_screen: ActiveScreen::Home,
            preferences: AppPreferences { onboarding_completed: true, ..self.preferences },
            pending_window_resize: Some(
                WindowResizeIntent { width: HOME_WINDOW_WIDTH, height: HOME_WINDOW_HEIGHT },
            ),
        })
    }

    /// The state after a reset: default preferences, the welcome screen, and
    /// the welcome window size queued.
    pub open spec fn reset_done(self, after: Self) -> bool {
        after == (AppState {
            active_screen: ActiveScreen::Welcome,
            preferences: default_preferences(),
            pending_window_resize: Some(
                WindowResizeIntent { width: WELCOME_WINDOW_WIDTH, height: WELCOME_WINDOW_HEIGHT },
            ),
        })
    }

    pub fn from_preferences(preferences: AppPreferences) -> (r: Self)
        ensures
            r == (AppState {
                active_screen: boot_screen_for(preferences),
                preferences,
                pending_window_resize: None,
            }),
    {
        let active_screen = boot_screen(&preferences);
        Self { active_screen, preferences, pending_window_resize: None }
    }

    /// Active theme from persisted preferences (single source of truth).
    pub fn theme_mode(&self) -> (r: ThemeMode)
        ensures
            r == self.preferences.theme_mode,
    {
        self.preferences.theme_mode
    }

    /// Initial window dimensions for the active screen at launch.
    pub fn initial_window_size(&self) -> (r: (u32, u32))
        ensures
            r == match self.active_screen {
                ActiveScreen::Welcome => (WELCOME_WINDOW_WIDTH, WELCOME_WINDOW_HEIGHT),
                ActiveScreen::Home => (HOME_WINDOW_WIDTH, HOME_WINDOW_HEIGHT),
            },
    {
        match self.active_screen {
            ActiveScreen::Welcome => (WELCOME_WINDOW_WIDTH, WELCOME_WINDOW_HEIGHT),
            ActiveScreen::Home => (HOME_WINDOW_WIDTH, HOME_WINDOW_HEIGHT),
        }
    }

    /// Consumes a pending resize intent after the GPU layer applies it.
    pub fn take_pending_window_resize(&mut self) -> (r: Option<WindowResizeIntent>)
        ensures
            r == old(self).pending_window_resize,
            *final(self) == (AppState { pending_window_resize: None, ..*old(self) }),
    {
        let pending = self.pending_window_resize;
        self.pending_window_resize = None;
        pending
    }

    /// Marks welcome complete, persists preferences, and routes to home; a
    /// failed save changes nothing.
    pub fn complete_welcome<S: PreferencesStore>(&mut self, store: &S) -> (r: Result<(), PreferencesError>)
        ensures
            store.saved(
                AppPreferences { onboarding_completed: true, ..old(self).preferences },
                r,
            ),
            match r {
                Ok(()) => old(self).welcome_completed(*final(self)),
                Err(_) => *final(self) == *old(self),
            },
    {
        self.apply_welcome_outcome(WelcomeOutcome::Completed, store)
    }

    /// Persists a theme change from welcome controls; a failed save changes
    /// nothing.
    pub fn set_theme_mode<S: PreferencesStore>(&mut self, store: &S, mode: ThemeMode) -> (r: Result<
        (),
        PreferencesError,
    >)
        ensures
            store.saved(AppPreferences { theme_mode: mode, ..old(self).preferences }, r),
            match r {
                Ok(()) => *final(self) == (AppState {
                    preferences: AppPreferences { theme_mode: mode, ..old(self).preferences },
                    ..*old(self)
                }),
                Err(_) => *final(self) == *old(self),
            },
    {
        let mut updated = self.preferences;
        updated.theme_mode = mode;
        let saved = store.save(&updated);
        if saved.is_ok() {
            self.preferences = updated;
        }
        saved
    }

    /// Persists onboarding completion and queues the home resize without
    /// routing; a failed save changes nothing.
    pub fn persist_welcome_completion<S: PreferencesStore>(&mut self, store: &S) -> (r: Result<
        (),
        PreferencesError,
    >)
        ensures
            store.saved(
                AppPreferences { onboarding_completed: true, ..old(self).preferences },
                r,
            ),
            match r {
                Ok(()) => old(self).completion_persisted(*final(self)),
                Err(_) => *final(self) == *old(self),
            },
    {
        let mut updated = self.preferences;
        updated.onboarding_completed = true;
        let saved = store.save(&updated);
        if saved.is_ok() {
            self.preferences = updated;
            self.pending_window_resize = Some(
                WindowResizeIntent { width: HOME_WINDOW_WIDTH, height: HOME_WINDOW_HEIGHT },
            );
        }
        saved
    }

    /// Routes to home after the welcome hero transition finishes.
    pub fn finish_welcome_transition(&mut self)
        ensures
            *final(self) == (AppState { active_screen: ActiveScreen::Home, ..*old(self) }),
    {
        self.active_screen = ActiveScreen::Home;
    }

    /// Applies a reducer outcome: persist and route when completed.
    pub fn apply_welcome_outcome<S: PreferencesStore>(
        &mut self,
        outcome: WelcomeOutcome,
        store: &S,
    ) -> (r: Result<(), PreferencesError>)
        ensures
            match outcome {
                WelcomeOutcome::Pending => r is Ok && *final(self) == *old(self),
                WelcomeOutcome::Completed => {
                    &&& store.saved(
                        AppPreferences { onboarding_completed: true, ..old(self).preferences },
                        r,
                    )
                    &&& match r {
                        Ok(()) => old(self).welcome_completed(*final(self)),
                        Err(_) => *final(self) == *old(self),
                    }
                },
            },
    {
        match outcome {
            WelcomeOutcome::Pending => Ok(()),
            WelcomeOutcome::Completed => {
                let saved = self.persist_welcome_completion(store);
                if saved.is_ok() {
                    self.finish_welcome_transition();
                }
                saved
            },
        }
    }

    /// Resets persisted preferences to defaults and routes back to welcome
    /// (dev tooling); a failed save changes nothing.
    pub fn reset_persistent_data<S: PreferencesStore>(&mut self, store: &S) -> (r: Result<
        (),
        PreferencesError,
    >)
        ensures
            store.saved(default_preferences(), r),
            match r {
                Ok(()) => old(self).reset_done(*final(self)),
                Err(_) => *final(self) == *old(self),
            },
    {
        let defaults = AppPreferences::default();
        let saved = store.save(&defaults);
        if saved.is_ok() {
            self.preferences = defaults;
            self.active_screen = ActiveScreen::Welcome;
            self.pending_window_resize = Some(
                WindowResizeIntent { width: WELCOME_WINDOW_WIDTH, height: WELCOME_WINDOW_HEIGHT },
            );
        }
        saved
    }
}

/// Once welcome completes, the saved preferences boot the next launch
/// straight into the home screen, at the home window size.
pub proof fn law_completed_welcome_boots_home(s: AppState, t: AppState)
    requires
        s.welcome_completed(t),
    ensures
        boot_screen_for(t.preferences) == ActiveScreen::Home,
        t.active_screen == boot_screen_for(t.preferences),
        t.preferences.theme_mode == s.preferences.theme_mode,
{
}

/// After a reset, the saved preferences boot the next launch into welcome,
/// just as the app now shows.
pub proof fn law_reset_boots_welcome(s: AppState, t: AppState)
    requires
        s.reset_done(t),
    ensures
        boot_screen_for(t.preferences) == ActiveScreen::Welcome,
        t.active_screen == boot_screen_for(t.preferences),
{
}

/// Persisting completion and then finishing the hero transition ends in the
/// same state as completing welcome in one step.
pub proof fn law_persist_then_finish_is_completion(s: AppState, t: AppState)
    requires
        s.completion_persisted(t),
    ensures
        s.welcome_completed(AppState { active_screen: ActiveScreen::Home, ..t }),
{
}

} // verus!
