//! Welcome command reducer and interactive state.

use vstd::prelude::*;

use crate::text::str_eq;

verus! {

/// Commands the welcome UI can send to the reducer.
#[derive(Debug, Clone, Copy, PartialEq, Eq, Structural)]
pub enum WelcomeCommand {
    EnterPressed,
}

/// Outcomes produced by the welcome reducer.
#[derive(Debug, Clone, Copy, PartialEq, Eq, Structural)]
pub enum WelcomeOutcome {
    /// No state change; welcome continues.
    Pending,
    /// User finished welcome (primary CTA).
    Completed,
}

/// Reduces a welcome command to an outcome.
pub fn reduce_welcome(command: WelcomeCommand) -> (r: WelcomeOutcome)
    ensures
        r == WelcomeOutcome::Completed,
{
    match command {
        WelcomeCommand::EnterPressed => WelcomeOutcome::Completed,
    }
}

/// Brand morph + header, copy, and CTA fade-in on welcome load, in nanoseconds.
pub const CHROME_REVEAL_DURATION_NANOS: u64 = 800_000_000;

/// Keyboard focus and intro timing of the welcome screen; times are
/// nanoseconds on a monotonic clock.
#[derive(Debug, Clone, Copy, PartialEq, Eq, Structural)]
pub struct WelcomeUiState {
    focus_claimed: bool,
    started_at: Option<u64>,
}

/// Whether the intro reveal still runs at `now`: before it starts, or until
/// the reveal duration has passed since it started.
pub open spec fn animating_at(started_at: Option<u64>, now: u64) -> bool {
    match started_at {
        None => true,
        Some(s) => (if now >= s {
            now - s
        } else {
            0
        }) < CHROME_REVEAL_DURATION_NANOS,
    }
}

impl WelcomeUiState {
    pub closed spec fn spec_started_at(self) -> Option<u64> {
        self.started_at
    }

    pub closed spec fn spec_focus_claimed(self) -> bool {
        self.focus_claimed
    }

    pub fn new() -> (r: Self)
        ensures
            r.spec_started_at() is None,
            !r.spec_focus_claimed(),
    {
        Self { focus_claimed: false, started_at: None }
    }

    /// When the intro started, if it has.
    pub fn started_at(&self) -> (r: Option<u64>)
        ensures
            r == self.spec_started_at(),
    {
        self.started_at
    }

    /// Whether the screen has taken keyboard focus.
    pub fn focus_claimed(&self) -> (r: bool)
        ensures
            r == self.spec_focus_claimed(),
    {
        self.focus_claimed
    }

    /// Starts the intro clock on the first tick and reports whether the
    /// reveal animation is still running.
    pub fn tick(&mut self, now: u64) -> (r: bool)
        ensures
            final(self).spec_started_at() == match old(self).spec_started_at() {
                Some(s) => Some(s),
                None => Some(now),
            },
            final(self).spec_focus_claimed() == old(self).spec_focus_claimed(),
            r == animating_at(final(self).spec_started_at(), now),
    {
        if self.started_at.is_none() {
            self.started_at = Some(now);
        }
        self.intro_animating(now)
    }

    pub fn intro_animating(&self, now: u64) -> (r: bool)
        ensures
            r == animating_at(self.spec_started_at(), now),
    {
        match self.started_at {
            None => true,
            Some(started_at) => now.saturating_sub(started_at) < CHROME_REVEAL_DURATION_NANOS,
        }
    }

    pub fn accepts_enter(&self) -> (r: bool)
        ensures
            r,
    {
        true
    }

    /// Claims keyboard focus once per welcome session. Returns whether the
    /// caller should move focus to the screen now: not once focus has been
    /// claimed, and not when the screen already has it (which claims it).
    pub fn ensure_initial_focus(&mut self, handle_is_focused: bool) -> (r: bool)
        ensures
            r == (!old(self).spec_focus_claimed() && !handle_is_focused),
            final(self).spec_focus_claimed() == (old(self).spec_focus_claimed()
                || handle_is_focused),
            final(self).spec_started_at() == old(self).spec_started_at(),
    {
        if self.focus_claimed {
            return false;
        }
        if handle_is_focused {
            self.focus_claimed = true;
            false
        } else {
            true
        }
    }
}

/// The reveal runs at its start and stops once its duration has passed.
pub proof fn law_reveal_window(start: u64, now: u64)
    ensures
        animating_at(Some(start), start),
        now >= start + CHROME_REVEAL_DURATION_NANOS ==> !animating_at(Some(start), now),
        start <= now < start + CHROME_REVEAL_DURATION_NANOS ==> animating_at(Some(start), now),
{
}

/// A titlebar drag starts only once the pointer is down and has moved.
pub fn welcome_drag_should_start(pointer_down: bool, pointer_moved: bool) -> (r: bool)
    ensures
        r == (pointer_down && pointer_moved),
{
    pointer_down && pointer_moved
}

/// Whether a key press completes welcome: Enter (or Return), pressed fresh
/// rather than repeated, with no modifier held.
pub fn is_enter_keystroke(key: &str, is_held: bool, modified: bool) -> (r: bool)
    ensures
        r == ((key@ == "enter"@ || key@ == "return"@) && !is_held && !modified),
{
    (str_eq(key, "enter") || str_eq(key, "return")) && !is_held && !modified
}

} // verus!
