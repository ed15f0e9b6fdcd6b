use vstd::prelude::*;
use crate::text::str_eq;

verus! {

/// How long after being shown the popover ignores losing focus, in milliseconds.
pub const FOCUS_GRACE_MS: i64 = 400;

/// How often the wake watcher looks at the clock, in seconds.
pub const WAKE_POLL_SECS: u64 = 30;

/// A gap between two looks at the clock longer than this, in seconds, means
/// the machine was asleep.
pub const WAKE_GAP_SECS: u64 = 120;

/// What a tray menu item does.
#[derive(Debug, Clone, Copy, PartialEq, Eq, Structural)]
pub enum MenuAction {
    /// Ask the scheduler for the next wallpaper now.
    Next,
    /// Flip the paused setting and ask the scheduler to reschedule.
    TogglePause,
    /// Show the settings window.
    ShowSettings,
    /// Quit the application.
    Quit,
    /// Nothing: an item this menu does not have.
    Ignore,
}

pub open spec fn menu_action_spec(id: Seq<char>) -> MenuAction {
    if id == "next"@ {
        MenuAction::Next
    } else if id == "pause"@ {
        MenuAction::TogglePause
    } else if id == "settings"@ {
        MenuAction::ShowSettings
    } else if id == "quit"@ {
        MenuAction::Quit
    } else {
        MenuAction::Ignore
    }
}

/// What the tray menu item with id `id` does.
pub fn menu_action(id: &str) -> (a: MenuAction)
    ensures
        a == menu_action_spec(id@),
{
    if str_eq(id, "next") {
        MenuAction::Next
    } else if str_eq(id, "pause") {
        MenuAction::TogglePause
    } else if str_eq(id, "settings") {
        MenuAction::ShowSettings
    } else if str_eq(id, "quit") {
        MenuAction::Quit
    } else {
        MenuAction::Ignore
    }
}

/// Whether the popover hides when it loses focus at `now_ms`, having been
/// shown at `last_shown_ms`: only once the grace period has passed.
pub fn hide_on_blur(now_ms: i64, last_shown_ms: i64) -> (r: bool)
    requires
        i64::MIN <= now_ms - last_shown_ms <= i64::MAX,
    ensures
        r == (now_ms - last_shown_ms > FOCUS_GRACE_MS),
{
    now_ms - last_shown_ms > FOCUS_GRACE_MS
}

/// Whether a gap of `elapsed_nanos` nanoseconds between two looks at the
/// clock means the machine woke from sleep: it is longer than `WAKE_GAP_SECS`.
pub fn is_wake_gap(elapsed_nanos: u128) -> (r: bool)
    ensures
        r == (elapsed_nanos > WAKE_GAP_SECS * 1_000_000_000),
{
    elapsed_nanos > (WAKE_GAP_SECS as u128) * 1_000_000_000u128
}

} // verus!
