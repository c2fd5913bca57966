use voxely::app::machine::SessionState;
use voxely::app::overlay::{
    center_physical_position, overlay_physical_position, OverlayTimeline, WorkArea,
    OVERLAY_GAP_PX, OVERLAY_HEIGHT, OVERLAY_WIDTH,
};
use voxely::app::overlay_controller::{
    accept_overlay_revision, delayed_hide_is_stale, hide_should_dismiss, next_overlay_revision,
    overlay_snapshot,
};
use voxely::app::shortcuts::{
    coalesce_session_command, escape_register_fallback_to_ll_hook, shortcut_layout_changed,
    should_apply_scheduled_sync, wants_escape_hotkey, SessionCommand, ShortcutLayout,
};

#[test]
fn places_center_bottom_not_screen_center() {
    let work = WorkArea {
        left: 0,
        top: 0,
        right: 1920,
        bottom: 1040,
    };
    let (x, y) = overlay_physical_position(
        work,
        OVERLAY_WIDTH as u32,
        OVERLAY_HEIGHT as u32,
        OVERLAY_GAP_PX,
    );
    assert_eq!(x, (1920 - OVERLAY_WIDTH as i32) / 2);
    assert_eq!(y, 1040 - OVERLAY_HEIGHT as i32 - OVERLAY_GAP_PX);
    assert_eq!(OVERLAY_WIDTH, 320);
    assert_eq!(OVERLAY_HEIGHT, 72);
}

#[test]
fn respects_secondary_monitor_origin() {
    let work = WorkArea {
        left: 1920,
        top: 100,
        right: 3840,
        bottom: 1180,
    };
    let (x, y) = overlay_physical_position(
        work,
        OVERLAY_WIDTH as u32,
        OVERLAY_HEIGHT as u32,
        OVERLAY_GAP_PX,
    );
    assert_eq!(x, 1920 + (1920 - OVERLAY_WIDTH as i32) / 2);
    assert_eq!(y, 1180 - OVERLAY_HEIGHT as i32 - OVERLAY_GAP_PX);
}

#[test]
fn centers_main_window_in_work_area() {
    let work = WorkArea {
        left: 1920,
        top: 0,
        right: 3840,
        bottom: 1080,
    };
    let (x, y) = center_physical_position(work, 960, 680);
    assert_eq!(x, 1920 + (1920 - 960) / 2);
    assert_eq!(y, (1080 - 680) / 2);
}

#[test]
fn overlay_never_rises_above_a_short_work_area() {
    let work = WorkArea {
        left: 0,
        top: 500,
        right: 200,
        bottom: 560,
    };
    assert_eq!(overlay_physical_position(work, 320, 72, 48), (0, 500));
}

#[test]
fn overlay_timeline_is_first_paint_not_show_elapsed_only() {
    let mut timeline = OverlayTimeline::default();
    assert!(timeline.elapsed_ms().is_none());
    timeline.begin_show();
    timeline.mark_window_created();
    timeline.mark_phase("react");
    timeline.mark_phase("frame");
    let report = timeline.report();
    assert_eq!(report.hotkey_ms, Some(0));
    assert!(report.window_created_ms.is_some());
    assert!(report.react_mounted_ms.is_some());
    assert!(report.first_frame_ms.is_some());
    timeline.end_show();
    assert!(timeline.elapsed_ms().is_none());
}

#[test]
fn event_newer_than_snapshot_is_accepted() {
    assert!(accept_overlay_revision(1, 2));
    assert!(!accept_overlay_revision(4, 4));
    assert!(!accept_overlay_revision(5, 4));
    assert_eq!(next_overlay_revision(4), 5);
}

#[test]
fn strict_mode_double_subscribe_keeps_monotonic_revision() {
    let mut revision = 0u64;
    for incoming in [3u64, 3, 2, 4] {
        if accept_overlay_revision(revision, incoming) {
            revision = incoming;
        }
    }
    assert_eq!(revision, 4);
    let hidden = overlay_snapshot(revision, false, SessionState::Idle);
    assert!(!hidden.visible);
    assert_eq!(hidden.state, SessionState::Idle);
}

#[test]
fn stale_delayed_hide_is_ignored() {
    assert!(delayed_hide_is_stale(3, 4));
    assert!(!delayed_hide_is_stale(4, 4));
}

#[test]
fn start_during_error_timeout_invalidates_hide_epoch() {
    let error_epoch = 7u64;
    let start_epoch = next_overlay_revision(error_epoch);
    assert!(delayed_hide_is_stale(error_epoch, start_epoch));
    assert!(!hide_should_dismiss(&SessionState::Recording));
    assert!(hide_should_dismiss(&SessionState::Failed {
        message: "x".into(),
        code: "InvalidApiKey".into(),
    }));
}

#[test]
fn revision_saturates_at_the_top() {
    assert_eq!(next_overlay_revision(u64::MAX), u64::MAX);
}

#[test]
fn idle_does_not_want_escape() {
    assert!(!wants_escape_hotkey(false, false));
    assert!(wants_escape_hotkey(true, false));
    assert!(!wants_escape_hotkey(true, true));
}

#[test]
fn coalesced_sync_keeps_latest_ticket() {
    assert!(should_apply_scheduled_sync(3, 3));
    assert!(!should_apply_scheduled_sync(2, 3));
}

#[test]
fn hotkey_layout_ignores_cancellable() {
    let registered = ShortcutLayout {
        hotkey: "Control+Space".into(),
        suspended: false,
    };
    assert!(!shortcut_layout_changed(Some(&registered), &registered));
    let suspended = ShortcutLayout {
        hotkey: registered.hotkey.clone(),
        suspended: true,
    };
    assert!(shortcut_layout_changed(Some(&registered), &suspended));
    let other_hotkey = ShortcutLayout {
        hotkey: "Alt+X".into(),
        suspended: false,
    };
    assert!(shortcut_layout_changed(Some(&registered), &other_hotkey));
    assert!(shortcut_layout_changed(None, &registered));
    assert!(!wants_escape_hotkey(false, false));
}

#[test]
fn cancel_wins_over_pending_toggle() {
    assert_eq!(
        coalesce_session_command(Some(SessionCommand::Toggle), SessionCommand::Cancel),
        SessionCommand::Cancel
    );
    assert_eq!(
        coalesce_session_command(Some(SessionCommand::Cancel), SessionCommand::Toggle),
        SessionCommand::Cancel
    );
    assert_eq!(
        coalesce_session_command(Some(SessionCommand::Toggle), SessionCommand::Toggle),
        SessionCommand::Toggle
    );
}

#[test]
fn register_failure_uses_ll_hook() {
    assert!(escape_register_fallback_to_ll_hook(false));
    assert!(!escape_register_fallback_to_ll_hook(true));
}
