//! Revisions and hide epochs that keep the overlay's view of the session
//! monotonic.
use vstd::prelude::*;

use crate::app::machine::SessionState;

verus! {

/// What the overlay window shows.
#[derive(Debug, Clone, PartialEq, Eq)]
pub struct OverlaySnapshot {
    pub revision: u64,
    pub visible: bool,
    pub state: SessionState,
}

/// The revision after `current`, saturating at the largest value.
pub fn next_overlay_revision(current: u64) -> (r: u64)
    ensures
        r == if current == u64::MAX { current as int } else { current + 1 },
{
    current.saturating_add(1)
}

/// Whether an incoming revision is newer than the one already shown.
pub fn accept_overlay_revision(current: u64, incoming: u64) -> (r: bool)
    ensures
        r == (incoming > current),
{
    incoming > current
}

/// A snapshot made of its three parts.
pub fn overlay_snapshot(revision: u64, visible: bool, state: SessionState) -> (r: OverlaySnapshot)
    ensures
        r.revision == revision,
        r.visible == visible,
        r.state == state,
{
    OverlaySnapshot { revision, visible, state }
}

/// Whether hiding the overlay also dismisses a finished session.
pub fn hide_should_dismiss(state: &SessionState) -> (r: bool)
    ensures
        r == (state@ is Failed || state@ is Completed),
{
    match state {
        SessionState::Failed { .. } | SessionState::Completed => true,
        _ => false,
    }
}

/// Whether a delayed hide scheduled at `expected_epoch` is outdated.
pub fn delayed_hide_is_stale(expected_epoch: u64, current_epoch: u64) -> (r: bool)
    ensures
        r == (expected_epoch != current_epoch),
{
    expected_epoch != current_epoch
}

} // verus!
