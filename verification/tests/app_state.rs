use std::cell::RefCell;

use opencore_rustroops::app_state::{
    boot_screen, ActiveScreen, AppState, WindowResizeIntent, HOME_WINDOW_HEIGHT, HOME_WINDOW_WIDTH,
    WELCOME_WINDOW_HEIGHT, WELCOME_WINDOW_WIDTH,
};
use opencore_rustroops::preferences::{AppPreferences, PreferencesError, PreferencesStore, ThemeMode};
use opencore_rustroops::welcome::WelcomeOutcome;

struct MemoryStore {
    saved: RefCell<Vec<AppPreferences>>,
    fail: bool,
}

impl MemoryStore {
    fn new(fail: bool) -> Self {
        MemoryStore {
            saved: RefCell::new(Vec::new()),
            fail,
        }
    }
}

impl PreferencesStore for MemoryStore {
    fn saved(&self, _preferences: AppPreferences, r: Result<(), PreferencesError>) -> bool {
        r.is_ok() != self.fail
    }

    fn save(&self, preferences: &AppPreferences) -> Result<(), PreferencesError> {
        self.saved.borrow_mut().push(*preferences);
        if self.fail {
            return Err(PreferencesError {
                message: "disk full".into(),
            });
        }
        Ok(())
    }
}

#[test]
fn boot_routes_by_onboarding_completion() {
    let fresh = AppState::from_preferences(AppPreferences::default());
    assert_eq!(fresh.active_screen, ActiveScreen::Welcome);
    assert_eq!(fresh.initial_window_size(), (WELCOME_WINDOW_WIDTH, WELCOME_WINDOW_HEIGHT));
    assert_eq!(fresh.pending_window_resize, None);
    let done = AppPreferences {
        theme_mode: ThemeMode::Light,
        onboarding_completed: true,
    };
    let home = AppState::from_preferences(done);
    assert_eq!(home.active_screen, ActiveScreen::Home);
    assert_eq!(home.initial_window_size(), (HOME_WINDOW_WIDTH, HOME_WINDOW_HEIGHT));
    assert_eq!(home.theme_mode(), ThemeMode::Light);
    assert_eq!(boot_screen(&done), ActiveScreen::Home);
    assert_eq!((WELCOME_WINDOW_WIDTH, WELCOME_WINDOW_HEIGHT), (960, 740));
    assert_eq!((HOME_WINDOW_WIDTH, HOME_WINDOW_HEIGHT), (1280, 800));
}

#[test]
fn complete_welcome_persists_and_routes_home() {
    let store = MemoryStore::new(false);
    let mut state = AppState::from_preferences(AppPreferences::default());
    state.complete_welcome(&store).unwrap();
    assert_eq!(state.active_screen, ActiveScreen::Home);
    assert!(state.preferences.onboarding_completed);
    assert_eq!(store.saved.borrow().last(), Some(&state.preferences));
    assert_eq!(
        state.take_pending_window_resize(),
        Some(WindowResizeIntent {
            width: HOME_WINDOW_WIDTH,
            height: HOME_WINDOW_HEIGHT
        })
    );
    assert_eq!(state.take_pending_window_resize(), None);
    assert_eq!(
        AppState::from_preferences(state.preferences).active_screen,
        ActiveScreen::Home
    );
}

#[test]
fn failed_save_leaves_state_unchanged() {
    let store = MemoryStore::new(true);
    let mut state = AppState::from_preferences(AppPreferences::default());
    let before = state;
    assert!(state.complete_welcome(&store).is_err());
    assert!(state.set_theme_mode(&store, ThemeMode::Light).is_err());
    assert!(state.reset_persistent_data(&store).is_err());
    assert!(state.persist_welcome_completion(&store).is_err());
    assert_eq!(state, before);
}

#[test]
fn theme_change_and_pending_outcome() {
    let store = MemoryStore::new(false);
    let mut state = AppState::from_preferences(AppPreferences::default());
    state.set_theme_mode(&store, ThemeMode::Light).unwrap();
    assert_eq!(state.theme_mode(), ThemeMode::Light);
    let before = state;
    state.apply_welcome_outcome(WelcomeOutcome::Pending, &store).unwrap();
    assert_eq!(state, before);
    assert_eq!(store.saved.borrow().len(), 1);
}

#[test]
fn persist_then_finish_matches_complete() {
    let store = MemoryStore::new(false);
    let mut staged = AppState::from_preferences(AppPreferences::default());
    staged.persist_welcome_completion(&store).unwrap();
    assert_eq!(staged.active_screen, ActiveScreen::Welcome);
    staged.finish_welcome_transition();
    let mut direct = AppState::from_preferences(AppPreferences::default());
    direct.complete_welcome(&store).unwrap();
    assert_eq!(staged, direct);
}

#[test]
fn reset_returns_to_welcome_defaults() {
    let store = MemoryStore::new(false);
    let mut state = AppState::from_preferences(AppPreferences {
        theme_mode: ThemeMode::Light,
        onboarding_completed: true,
    });
    state.reset_persistent_data(&store).unwrap();
    assert_eq!(state.preferences, AppPreferences::default());
    assert_eq!(state.active_screen, ActiveScreen::Welcome);
    assert_eq!(
        state.pending_window_resize,
        Some(WindowResizeIntent {
            width: WELCOME_WINDOW_WIDTH,
            height: WELCOME_WINDOW_HEIGHT
        })
    );
}

#[test]
fn each_save_hands_the_updated_preferences_to_the_store() {
    let store = MemoryStore::new(false);
    let mut state = AppState::from_preferences(AppPreferences::default());
    state.set_theme_mode(&store, ThemeMode::Light).unwrap();
    state.apply_welcome_outcome(WelcomeOutcome::Pending, &store).unwrap();
    state.apply_welcome_outcome(WelcomeOutcome::Completed, &store).unwrap();
    state.reset_persistent_data(&store).unwrap();
    assert_eq!(
        *store.saved.borrow(),
        vec![
            AppPreferences {
                theme_mode: ThemeMode::Light,
                onboarding_completed: false,
            },
            AppPreferences {
                theme_mode: ThemeMode::Light,
                onboarding_completed: true,
            },
            AppPreferences::default(),
        ]
    );
}

#[test]
fn failed_saves_still_hand_over_the_updated_preferences() {
    let store = MemoryStore::new(true);
    let mut state = AppState::from_preferences(AppPreferences::default());
    let err = state.set_theme_mode(&store, ThemeMode::Light).unwrap_err();
    assert_eq!(err.message, "disk full");
    assert!(state.persist_welcome_completion(&store).is_err());
    assert_eq!(
        *store.saved.borrow(),
        vec![
            AppPreferences {
                theme_mode: ThemeMode::Light,
                onboarding_completed: false,
            },
            AppPreferences {
                theme_mode: ThemeMode::Dark,
                onboarding_completed: true,
            },
        ]
    );
    assert_eq!(state.preferences, AppPreferences::default());
}
