//! Pure decisions behind the global dictation hotkey and the Escape hook.
use vstd::prelude::*;

verus! {

/// A command posted by a hotkey, run later on the main thread.
#[derive(Debug, Clone, Copy, PartialEq, Eq)]
pub enum SessionCommand {
    Toggle,
    Cancel,
}

/// The hotkey registration that is (or should be) in force.
#[derive(Debug, Clone, PartialEq, Eq)]
pub struct ShortcutLayout {
    pub hotkey: String,
    pub suspended: bool,
}

/// Whether the registration must be redone: nothing applied yet, or the
/// applied layout differs from the desired one in hotkey or suspension.
pub fn shortcut_layout_changed(applied: Option<&ShortcutLayout>, desired: &ShortcutLayout) -> (r:
    bool)
    ensures
        r == match applied {
            None => true,
            Some(a) => !(a.hotkey@ == desired.hotkey@ && a.suspended == desired.suspended),
        },
{
    match applied {
        None => true,
        Some(a) => !(crate::text::str_eq(a.hotkey.as_str(), desired.hotkey.as_str()) && a.suspended
            == desired.suspended),
    }
}

/// The command that survives when `next` arrives while `pending` waits:
/// a cancel always wins, and a pending cancel is not replaced by a toggle.
pub open spec fn coalesced(pending: Option<SessionCommand>, next: SessionCommand) -> SessionCommand {
    if next == SessionCommand::Cancel || pending == Some(SessionCommand::Cancel) {
        SessionCommand::Cancel
    } else {
        next
    }
}

/// Merges a newly posted command into the pending one.
pub fn coalesce_session_command(pending: Option<SessionCommand>, next: SessionCommand) -> (r:
    SessionCommand)
    ensures
        r == coalesced(pending, next),
{
    match (pending, next) {
        (_, SessionCommand::Cancel) => SessionCommand::Cancel,
        (Some(SessionCommand::Cancel), SessionCommand::Toggle) => SessionCommand::Cancel,
        (_, command) => command,
    }
}

/// Whether Escape should be captured: only while something can be
/// cancelled and hotkeys are not suspended.
pub fn wants_escape_hotkey(cancellable: bool, suspended: bool) -> (r: bool)
    ensures
        r == (cancellable && !suspended),
{
    cancellable && !suspended
}

/// Whether a scheduled sync is the latest one requested.
pub fn should_apply_scheduled_sync(ticket: u64, latest: u64) -> (r: bool)
    ensures
        r == (ticket == latest),
{
    ticket == latest
}

/// Whether Escape falls back to the low-level keyboard hook: when the
/// regular registration failed.
pub fn escape_register_fallback_to_ll_hook(register_ok: bool) -> (r: bool)
    ensures
        r == !register_ok,
{
    !register_ok
}

/// Once a cancel is pending, no later command replaces it; and whatever is
/// pending, a posted cancel is what runs.
pub proof fn law_cancel_is_sticky(pending: Option<SessionCommand>, next: SessionCommand)
    ensures
        coalesced(pending, SessionCommand::Cancel) == SessionCommand::Cancel,
        coalesced(Some(SessionCommand::Cancel), next) == SessionCommand::Cancel,
        pending != Some(SessionCommand::Cancel) ==> coalesced(pending, next) == next,
{
}

} // verus!
