//! Where the overlay and the main window are placed, and the overlay's
//! first-paint timeline.
use vstd::prelude::*;

use std::time::Instant;

use crate::clock::{duration_between, instant_now, time_since, whole_millis};

verus! {

/// A monitor's work area in physical pixels.
#[derive(Debug, Clone, Copy, PartialEq, Eq)]
pub struct WorkArea {
    pub left: i32,
    pub top: i32,
    pub right: i32,
    pub bottom: i32,
}

/// Overlay width in logical pixels.
pub const OVERLAY_WIDTH: u32 = 320;

/// Overlay height in logical pixels.
pub const OVERLAY_HEIGHT: u32 = 72;

/// Gap between the overlay and the bottom of the work area.
pub const OVERLAY_GAP_PX: i32 = 48;

pub open spec fn max0(x: int) -> int {
    if x < 0 { 0 } else { x }
}

/// The overlay's top-left corner: centred horizontally, `gap` pixels above
/// the bottom of the work area, but never above its top.
pub open spec fn overlay_position_spec(work: WorkArea, width: int, height: int, gap: int) -> (int, int) {
    let area_w = max0(work.right - work.left);
    (work.left + max0(area_w - width) / 2, if work.bottom - height - gap >= work.top {
        work.bottom - height - gap
    } else {
        work.top as int
    })
}

/// The top-left corner of a window centred in the work area.
pub open spec fn center_position_spec(work: WorkArea, width: int, height: int) -> (int, int) {
    let area_w = max0(work.right - work.left);
    let area_h = max0(work.bottom - work.top);
    (work.left + max0(area_w - width) / 2, work.top + max0(area_h - height) / 2)
}

/// The overlay position for a window of `width` x `height` in `work`.
pub fn overlay_physical_position(work: WorkArea, width: u32, height: u32, gap: i32) -> (r: (i32, i32))
    requires
        width <= i32::MAX,
        height <= i32::MAX,
        i32::MIN <= work.right - work.left <= i32::MAX,
        i32::MIN <= max0(work.right - work.left) - width <= i32::MAX,
        i32::MIN <= work.bottom - height <= i32::MAX,
        i32::MIN <= work.bottom - height - gap <= i32::MAX,
        i32::MIN <= work.left + max0(max0(work.right - work.left) - width) / 2 <= i32::MAX,
    ensures
        r.0 as int == overlay_position_spec(work, width as int, height as int, gap as int).0,
        r.1 as int == overlay_position_spec(work, width as int, height as int, gap as int).1,
{
    let area_w = (work.right - work.left).max(0);
    let w = width as i32;
    let h = height as i32;
    let x = work.left + (area_w - w).max(0) / 2;
    let y = (work.bottom - h - gap).max(work.top);
    (x, y)
}

/// The position that centres a window of `width` x `height` in `work`.
pub fn center_physical_position(work: WorkArea, width: u32, height: u32) -> (r: (i32, i32))
    requires
        width <= i32::MAX,
        height <= i32::MAX,
        i32::MIN <= work.right - work.left <= i32::MAX,
        i32::MIN <= work.bottom - work.top <= i32::MAX,
        i32::MIN <= max0(work.right - work.left) - width <= i32::MAX,
        i32::MIN <= max0(work.bottom - work.top) - height <= i32::MAX,
        i32::MIN <= work.left + max0(max0(work.right - work.left) - width) / 2 <= i32::MAX,
        i32::MIN <= work.top + max0(max0(work.bottom - work.top) - height) / 2 <= i32::MAX,
    ensures
        r.0 as int == center_position_spec(work, width as int, height as int).0,
        r.1 as int == center_position_spec(work, width as int, height as int).1,
{
    let area_w = (work.right - work.left).max(0);
    let area_h = (work.bottom - work.top).max(0);
    let w = width as i32;
    let h = height as i32;
    let x = work.left + (area_w - w).max(0) / 2;
    let y = work.top + (area_h - h).max(0) / 2;
    (x, y)
}

/// A window that fits in the work area is placed inside it: the overlay
/// lies within the area, `gap` pixels above its bottom, centred to within
/// a pixel; a centred window lies within the area, centred the same way on
/// both axes.
pub proof fn law_windows_stay_in_work_area(work: WorkArea, width: int, height: int, gap: int)
    requires
        0 <= width <= work.right - work.left,
        0 <= height,
        0 <= gap,
        height + gap <= work.bottom - work.top,
    ensures
        ({
            let (x, y) = overlay_position_spec(work, width, height, gap);
            &&& work.left <= x && x + width <= work.right
            &&& y == work.bottom - height - gap && work.top <= y
            &&& -1 <= (work.right - (x + width)) - (x - work.left) <= 1
        }),
        ({
            let (x, y) = center_position_spec(work, width, height);
            &&& work.left <= x && x + width <= work.right
            &&& work.top <= y && y + height <= work.bottom
            &&& -1 <= (work.right - (x + width)) - (x - work.left) <= 1
            &&& -1 <= (work.bottom - (y + height)) - (y - work.top) <= 1
        }),
{
}

/// When the overlay was asked to show, and when each stage of its first
/// paint happened.
#[derive(Debug, Clone)]
pub struct OverlayTimeline {
    origin: Option<Instant>,
    window_created: Option<Instant>,
    react_mounted: Option<Instant>,
    first_frame: Option<Instant>,
}

/// Milliseconds of each stage after the show request.
#[derive(Debug, Clone, PartialEq, Eq)]
pub struct OverlayTimingReport {
    pub hotkey_ms: Option<u128>,
    pub window_created_ms: Option<u128>,
    pub react_mounted_ms: Option<u128>,
    pub first_frame_ms: Option<u128>,
}

impl Default for OverlayTimeline {
    fn default() -> (r: Self)
        ensures
            !r.showing(),
            !r.has_window(),
            !r.has_react(),
            !r.has_frame(),
    {
        OverlayTimeline { origin: None, window_created: None, react_mounted: None, first_frame: None }
    }
}

fn since_origin(origin: &Instant, mark: &Option<Instant>) -> (r: Option<u128>)
    ensures
        r is Some == mark is Some,
{
    match mark {
        Some(m) => Some(whole_millis(duration_between(origin, m))),
        None => None,
    }
}

/// Whether the phase name is `react` (or `frame`).
fn is_phase(phase: &str, name: &str) -> (r: bool)
    ensures
        r == (phase@ == name@),
{
    crate::text::str_eq(phase, name)
}

impl OverlayTimeline {
    /// Whether the overlay is currently shown (a show was begun and not
    /// hidden).
    pub closed spec fn showing(&self) -> bool {
        self.origin is Some
    }

    /// Whether the window-created stage is recorded.
    pub closed spec fn has_window(&self) -> bool {
        self.window_created is Some
    }

    /// Whether the React-mounted stage is recorded.
    pub closed spec fn has_react(&self) -> bool {
        self.react_mounted is Some
    }

    /// Whether the first-frame stage is recorded.
    pub closed spec fn has_frame(&self) -> bool {
        self.first_frame is Some
    }

    /// The two timelines agree on every stage but the React-mounted one.
    pub closed spec fn same_but_react(&self, other: &Self) -> bool {
        self.origin == other.origin && self.window_created == other.window_created
            && self.first_frame == other.first_frame
    }

    /// The two timelines agree on every stage but the first frame.
    pub closed spec fn same_but_frame(&self, other: &Self) -> bool {
        self.origin == other.origin && self.window_created == other.window_created
            && self.react_mounted == other.react_mounted
    }

    /// Starts a new timeline now, forgetting every earlier stage.
    pub fn begin_show(&mut self)
        ensures
            final(self).showing(),
            !final(self).has_window(),
            !final(self).has_react(),
            !final(self).has_frame(),
    {
        let now = instant_now();
        *self = OverlayTimeline {
            origin: Some(now),
            window_created: None,
            react_mounted: None,
            first_frame: None,
        };
    }

    /// Records the window-created stage, once.
    pub fn mark_window_created(&mut self)
        ensures
            final(self).has_window(),
            final(self).showing() == old(self).showing(),
            final(self).has_react() == old(self).has_react(),
            final(self).has_frame() == old(self).has_frame(),
            old(self).has_window() ==> *final(self) == *old(self),
    {
        if self.window_created.is_none() {
            self.window_created = Some(instant_now());
        }
    }

    /// Records the `react` or `frame` stage, once each: a stage already
    /// recorded keeps its time, so marking twice is marking once; other
    /// phase names are ignored.
    pub fn mark_phase(&mut self, phase: &str)
        ensures
            final(self).showing() == old(self).showing(),
            final(self).has_window() == old(self).has_window(),
            final(self).has_react() == (old(self).has_react() || phase@ == "react"@),
            final(self).has_frame() == (old(self).has_frame() || phase@ == "frame"@),
            (phase@ != "react"@ && phase@ != "frame"@) ==> *final(self) == *old(self),
            phase@ == "react"@ ==> final(self).same_but_react(&*old(self)),
            phase@ == "frame"@ ==> final(self).same_but_frame(&*old(self)),
            phase@ == "react"@ && old(self).has_react() ==> *final(self) == *old(self),
            phase@ == "frame"@ && old(self).has_frame() ==> *final(self) == *old(self),
    {
        proof {
            reveal_strlit("react");
            reveal_strlit("frame");
            assert("react"@[0] != "frame"@[0]);
        }
        if is_phase(phase, "react") {
            if self.react_mounted.is_none() {
                self.react_mounted = Some(instant_now());
            }
        } else if is_phase(phase, "frame") {
            if self.first_frame.is_none() {
                self.first_frame = Some(instant_now());
            }
        }
    }

    /// Ends the current show.
    pub fn end_show(&mut self)
        ensures
            !final(self).showing(),
            final(self).has_window() == old(self).has_window(),
            final(self).has_react() == old(self).has_react(),
            final(self).has_frame() == old(self).has_frame(),
    {
        self.origin = None;
    }

    /// Milliseconds since the show began, while shown.
    pub fn elapsed_ms(&self) -> (r: Option<u128>)
        ensures
            r is Some == self.showing(),
    {
        match &self.origin {
            Some(t) => Some(whole_millis(time_since(t))),
            None => None,
        }
    }

    /// The stage timings of the current show: all absent when not shown;
    /// otherwise the hotkey at 0 and each stage present exactly when it was
    /// recorded.
    pub fn report(&self) -> (r: OverlayTimingReport)
        ensures
            !self.showing() ==> (r.hotkey_ms is None && r.window_created_ms is None
                && r.react_mounted_ms is None && r.first_frame_ms is None),
            self.showing() ==> (r.hotkey_ms == Some(0u128) && (r.window_created_ms is Some
                == self.has_window()) && (r.react_mounted_ms is Some == self.has_react()) && (
            r.first_frame_ms is Some == self.has_frame())),
    {
        match &self.origin {
            None => OverlayTimingReport {
                hotkey_ms: None,
                window_created_ms: None,
                react_mounted_ms: None,
                first_frame_ms: None,
            },
            Some(origin) => OverlayTimingReport {
                hotkey_ms: Some(0),
                window_created_ms: since_origin(origin, &self.window_created),
                react_mounted_ms: since_origin(origin, &self.react_mounted),
                first_frame_ms: since_origin(origin, &self.first_frame),
            },
        }
    }
}

} // verus!
