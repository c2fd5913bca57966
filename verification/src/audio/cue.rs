//! The kinds of sound cue played around dictation.
use vstd::prelude::*;

verus! {

/// Which cue to play: when capture starts, when it stops, and when it is
/// cancelled.
#[derive(Debug, Clone, Copy, PartialEq, Eq)]
pub enum CueKind {
    Start,
    Stop,
    Cancel,
}

} // verus!
