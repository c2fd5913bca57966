use std::cell::RefCell;

use voxely::error::AppError;
use voxely::windows_int::insert_engine::{
    adapt_unicode_chunk_size, capture_skips_voxely_roots, chromium_uses_named_host_adapter,
    classify_chunk_send, edit_class_uses_vk_return, hotkey_keys_to_release,
    hotkey_wait_complete, insert_outcome_event, insert_should_abort,
    insertion_mode_queues_keys, is_chromium_host, next_logical_chunk_end, plan_insert_units,
    plan_insert_units_for_class, plan_logical_units, resolve_captured_insert_target,
    resolve_insert_target, run_insert, unicode_chunk_units_for_class, CapturedTarget,
    ChunkSend, CopyReason, InsertKey, InsertOutcome, InsertRequest, InsertWorld, NativeHwnd,
    WorldSnapshot, UNICODE_CHUNK_UNITS_CHROMIUM, UNICODE_CHUNK_UNITS_CHROMIUM_MIN,
    UNICODE_CHUNK_UNITS_MIN,
};

#[derive(Default)]
struct FakeWorld {
    captured: Option<CapturedTarget>,
    foreground_root: Option<usize>,
    overlay_root: Option<usize>,
    main_root: Option<usize>,
    foreground_pid: Option<u32>,
    alive: bool,
    iconic: bool,
    integrity_blocked: Option<bool>,
    window_class: Option<String>,
    send_script: Vec<ChunkSend>,
    send_at: usize,
    clipboard: Option<String>,
    clipboard_fail: bool,
    actions: RefCell<Vec<String>>,
    restore_ok: bool,
    switch_after_sends: Option<usize>,
}

impl FakeWorld {
    fn target(root: usize) -> CapturedTarget {
        CapturedTarget {
            hwnd: root + 1,
            root,
            pid: 10,
            tid: 11,
            generation: 1,
        }
    }
}

impl InsertWorld for FakeWorld {
    fn snapshot(&mut self, captured: Option<CapturedTarget>) -> WorldSnapshot {
        WorldSnapshot {
            captured,
            foreground_root: self.foreground_root,
            foreground_pid: self.foreground_pid,
            focus_root: self.foreground_root,
            overlay_root: self.overlay_root,
            main_root: self.main_root,
            target_alive: self.alive,
            target_iconic: self.iconic,
            integrity_blocked: self.integrity_blocked,
            window_class: self.window_class.clone(),
        }
    }

    fn restore_foreground(&mut self, _target: &CapturedTarget) -> bool {
        self.actions.borrow_mut().push("restore".into());
        if self.restore_ok {
            if let Some(target) = self.captured {
                self.foreground_root = Some(target.root);
                self.foreground_pid = Some(target.pid);
            }
        }
        self.restore_ok
    }

    fn focus_caret(&mut self, _target: &CapturedTarget) -> bool {
        self.actions.borrow_mut().push("focus".into());
        true
    }

    fn wait_keys_up(&mut self, _keys: &[u16], _timeout_ms: u64) {
        self.actions.borrow_mut().push("wait_keys".into());
    }

    fn send_keys(&mut self, keys: &[InsertKey]) -> ChunkSend {
        self.actions
            .borrow_mut()
            .push(format!("send:{}", keys.len()));
        let result = self
            .send_script
            .get(self.send_at)
            .copied()
            .unwrap_or(ChunkSend::Complete);
        self.send_at += 1;
        if self.switch_after_sends == Some(self.send_at) {
            self.foreground_root = Some(99);
            self.foreground_pid = Some(99);
        }
        result
    }

    fn clipboard_copy(&mut self, text: &str) -> Result<(), AppError> {
        self.actions
            .borrow_mut()
            .push(format!("copy:{}", text.len()));
        if self.clipboard_fail {
            return Err(AppError::TextInsertionFailed("clipboard busy".into()));
        }
        self.clipboard = Some(text.to_string());
        Ok(())
    }
}

fn request<'a, A: Fn() -> bool>(
    mode: &'a str,
    text: &'a str,
    captured: Option<CapturedTarget>,
    abort: &'a A,
) -> InsertRequest<'a, A> {
    InsertRequest {
        mode,
        text,
        captured,
        overlay_root: Some(3),
        main_root: Some(4),
        hotkey: "Ctrl+Shift+Q",
        abort,
    }
}

#[test]
fn captured_foreground_sends_without_restore() {
    let target = FakeWorld::target(10);
    let mut world = FakeWorld {
        captured: Some(target),
        foreground_root: Some(10),
        overlay_root: Some(3),
        main_root: Some(4),
        alive: true,
        restore_ok: false,
        ..FakeWorld::default()
    };
    let never = || false;
    let outcome = run_insert(&mut world, request("unicode", "hi", Some(target), &never));
    assert_eq!(outcome, InsertOutcome::Inserted);
    assert_eq!(
        world.actions.borrow().as_slice(),
        ["focus", "wait_keys", "send:2"]
    );
    assert!(world.clipboard.is_none());
}

#[test]
fn voxely_foreground_restores_once() {
    let target = FakeWorld::target(10);
    let mut world = FakeWorld {
        captured: Some(target),
        foreground_root: Some(3),
        overlay_root: Some(3),
        main_root: Some(4),
        alive: true,
        restore_ok: true,
        ..FakeWorld::default()
    };
    let never = || false;
    let outcome = run_insert(&mut world, request("unicode", "hi", Some(target), &never));
    assert_eq!(outcome, InsertOutcome::Inserted);
    assert_eq!(
        world.actions.borrow().as_slice(),
        ["restore", "focus", "focus", "wait_keys", "send:2"]
    );
}

#[test]
fn third_party_foreground_never_restores() {
    let target = FakeWorld::target(10);
    let mut world = FakeWorld {
        captured: Some(target),
        foreground_root: Some(99),
        foreground_pid: Some(99),
        overlay_root: Some(3),
        main_root: Some(4),
        alive: true,
        restore_ok: true,
        ..FakeWorld::default()
    };
    let never = || false;
    let outcome = run_insert(
        &mut world,
        request("unicode", "full text", Some(target), &never),
    );
    assert_eq!(
        outcome,
        InsertOutcome::Copied {
            reason: CopyReason::UserSwitched
        }
    );
    assert_eq!(world.actions.borrow().as_slice(), ["copy:9"]);
    assert_eq!(world.clipboard.as_deref(), Some("full text"));
}

#[test]
fn insert_stays_on_start_capture() {
    let desktop = NativeHwnd { value: 1 };
    let field = NativeHwnd { value: 2 };
    let overlay = NativeHwnd { value: 3 };
    let main = NativeHwnd { value: 4 };
    assert_eq!(
        resolve_insert_target(Some(desktop), Some(field), Some(overlay), Some(main)),
        Some(desktop)
    );
    assert_eq!(
        resolve_insert_target(Some(overlay), Some(field), Some(overlay), Some(main)),
        Some(field)
    );
    assert!(capture_skips_voxely_roots(1, Some(1), Some(2)));
}

#[test]
fn start_capture_falls_back_to_live_focus() {
    let start = FakeWorld::target(10);
    let live = CapturedTarget {
        hwnd: 21,
        root: 20,
        pid: 20,
        tid: 21,
        generation: 1,
    };
    assert_eq!(
        resolve_captured_insert_target(Some(start), Some(live), Some(3), Some(4)),
        Some(start)
    );
    assert_eq!(
        resolve_captured_insert_target(None, Some(live), Some(3), Some(4)),
        Some(live)
    );
    let own = CapturedTarget {
        hwnd: 3,
        root: 3,
        pid: 1,
        tid: 1,
        generation: 1,
    };
    assert_eq!(
        resolve_captured_insert_target(Some(own), Some(live), Some(3), Some(4)),
        Some(live)
    );
    assert_eq!(
        resolve_captured_insert_target(Some(own), Some(own), Some(3), Some(4)),
        None
    );
}

#[test]
fn same_process_other_hwnd_restores_then_sends() {
    let target = FakeWorld::target(10);
    let mut world = FakeWorld {
        captured: Some(target),
        foreground_root: Some(77),
        foreground_pid: Some(10),
        overlay_root: Some(3),
        main_root: Some(4),
        alive: true,
        restore_ok: true,
        ..FakeWorld::default()
    };
    let never = || false;
    let outcome = run_insert(&mut world, request("unicode", "hi", Some(target), &never));
    assert_eq!(outcome, InsertOutcome::Inserted);
    assert_eq!(
        world.actions.borrow().as_slice(),
        ["restore", "focus", "focus", "wait_keys", "send:2"]
    );
}

#[test]
fn chromium_chunk_stays_small_when_slow() {
    assert!(is_chromium_host("Chrome_WidgetWin_1"));
    assert!(is_chromium_host("Chrome_RenderWidgetHostHWND"));
    assert!(!is_chromium_host("Edit"));
    assert!(!chromium_uses_named_host_adapter());
    assert_eq!(
        unicode_chunk_units_for_class(Some("Chrome_WidgetWin_1")),
        UNICODE_CHUNK_UNITS_CHROMIUM
    );
    assert_eq!(
        adapt_unicode_chunk_size(64, 400),
        UNICODE_CHUNK_UNITS_CHROMIUM_MIN
    );
}

#[test]
fn missing_and_minimized_targets_copy() {
    let never = || false;
    let mut missing = FakeWorld {
        alive: false,
        ..FakeWorld::default()
    };
    assert_eq!(
        run_insert(&mut missing, request("unicode", "hi", None, &never)),
        InsertOutcome::Copied {
            reason: CopyReason::NoTarget
        }
    );
    let target = FakeWorld::target(10);
    let mut minimized = FakeWorld {
        captured: Some(target),
        foreground_root: Some(10),
        alive: true,
        iconic: true,
        ..FakeWorld::default()
    };
    assert_eq!(
        run_insert(
            &mut minimized,
            request("unicode", "hi", Some(target), &never)
        ),
        InsertOutcome::Copied {
            reason: CopyReason::Minimized
        }
    );
    assert!(!minimized.actions.borrow().iter().any(|a| a == "restore"));
}

#[test]
fn zero_delivery_copies_full_without_retry() {
    let target = FakeWorld::target(10);
    let mut world = FakeWorld {
        captured: Some(target),
        foreground_root: Some(10),
        alive: true,
        send_script: vec![ChunkSend::Zero, ChunkSend::Complete],
        ..FakeWorld::default()
    };
    let never = || false;
    let outcome = run_insert(&mut world, request("unicode", "abc", Some(target), &never));
    assert_eq!(
        outcome,
        InsertOutcome::Copied {
            reason: CopyReason::SendBlocked
        }
    );
    assert_eq!(world.clipboard.as_deref(), Some("abc"));
    assert_eq!(
        world
            .actions
            .borrow()
            .iter()
            .filter(|a| a.starts_with("send"))
            .count(),
        1
    );
}

#[test]
fn even_partial_does_not_replay() {
    let target = FakeWorld::target(10);
    let mut world = FakeWorld {
        captured: Some(target),
        foreground_root: Some(10),
        alive: true,
        send_script: vec![ChunkSend::Partial { accepted: 4 }, ChunkSend::Complete],
        ..FakeWorld::default()
    };
    let never = || false;
    let outcome = run_insert(
        &mut world,
        request("unicode", "abcdef", Some(target), &never),
    );
    assert_eq!(outcome, InsertOutcome::PartialCopied);
    assert_eq!(world.clipboard.as_deref(), Some("abcdef"));
    assert_eq!(
        world
            .actions
            .borrow()
            .iter()
            .filter(|a| a.starts_with("send"))
            .count(),
        1
    );
}

#[test]
fn odd_partial_copies_full() {
    let target = FakeWorld::target(10);
    let mut world = FakeWorld {
        captured: Some(target),
        foreground_root: Some(10),
        alive: true,
        send_script: vec![ChunkSend::Odd { accepted: 3 }],
        ..FakeWorld::default()
    };
    let never = || false;
    assert_eq!(
        run_insert(&mut world, request("unicode", "ab", Some(target), &never)),
        InsertOutcome::PartialCopied
    );
}

#[test]
fn cancel_before_delivery_does_not_copy() {
    let target = FakeWorld::target(10);
    let mut world = FakeWorld {
        captured: Some(target),
        foreground_root: Some(10),
        alive: true,
        ..FakeWorld::default()
    };
    let abort = || true;
    assert_eq!(
        run_insert(&mut world, request("unicode", "hi", Some(target), &abort)),
        InsertOutcome::CancelledBeforeDelivery
    );
    assert!(world.clipboard.is_none());
}

#[test]
fn cancel_after_possible_delivery_is_partial_copied() {
    let target = FakeWorld::target(10);
    let text = "a".repeat(600);
    let mut world = FakeWorld {
        captured: Some(target),
        foreground_root: Some(10),
        alive: true,
        send_script: vec![ChunkSend::Complete],
        ..FakeWorld::default()
    };
    let count = std::cell::Cell::new(0u32);
    let abort = || {
        let n = count.get();
        count.set(n + 1);
        n >= 4
    };
    let outcome = run_insert(
        &mut world,
        InsertRequest {
            mode: "unicode",
            text: &text,
            captured: Some(target),
            overlay_root: Some(3),
            main_root: Some(4),
            hotkey: "Ctrl+Shift+Q",
            abort: &abort,
        },
    );
    assert_eq!(outcome, InsertOutcome::PartialCopied);
    assert_eq!(world.clipboard.as_deref(), Some(text.as_str()));
    assert!(world.actions.borrow().iter().any(|a| a.starts_with("send")));
}

#[test]
fn clipboard_busy_is_failed() {
    let mut world = FakeWorld {
        clipboard_fail: true,
        ..FakeWorld::default()
    };
    let never = || false;
    assert_eq!(
        run_insert(&mut world, request("clipboard", "hi", None, &never)),
        InsertOutcome::Failed
    );
}

#[test]
fn clipboard_mode_copies_without_send() {
    let target = FakeWorld::target(10);
    let mut world = FakeWorld {
        captured: Some(target),
        foreground_root: Some(10),
        alive: true,
        ..FakeWorld::default()
    };
    let never = || false;
    assert_eq!(
        run_insert(
            &mut world,
            request("clipboard", "paste me", Some(target), &never)
        ),
        InsertOutcome::Copied {
            reason: CopyReason::ClipboardMode
        }
    );
    assert!(!world.actions.borrow().iter().any(|a| a.starts_with("send")));
    assert!(!insertion_mode_queues_keys("clipboard"));
}

#[test]
fn integrity_blocked_copies() {
    let target = FakeWorld::target(10);
    let mut world = FakeWorld {
        captured: Some(target),
        foreground_root: Some(10),
        alive: true,
        integrity_blocked: Some(true),
        ..FakeWorld::default()
    };
    let never = || false;
    assert_eq!(
        run_insert(&mut world, request("unicode", "hi", Some(target), &never)),
        InsertOutcome::Copied {
            reason: CopyReason::IntegrityBlocked
        }
    );
}

#[test]
fn long_text_goes_in_several_chunks() {
    let target = FakeWorld::target(10);
    let text = "b".repeat(1300);
    let mut world = FakeWorld {
        captured: Some(target),
        foreground_root: Some(10),
        alive: true,
        ..FakeWorld::default()
    };
    let never = || false;
    let outcome = run_insert(&mut world, request("unicode", &text, Some(target), &never));
    assert_eq!(outcome, InsertOutcome::Inserted);
    let sent: usize = world
        .actions
        .borrow()
        .iter()
        .filter_map(|a| a.strip_prefix("send:"))
        .map(|n| n.parse::<usize>().unwrap())
        .sum();
    assert_eq!(sent, 1300);
}

#[test]
fn surrogate_is_one_logical_unit_on_chunk_boundary() {
    let bmp = "a".repeat(511);
    let text = format!("{bmp}👍");
    let units = plan_logical_units(&text, None);
    assert_eq!(units.len(), 512);
    assert_eq!(units[511].len(), 2);
    let end = next_logical_chunk_end(&units, 0, 512);
    assert_eq!(end, 511);
    assert_eq!(next_logical_chunk_end(&units, end, 512), 512);
    let split = next_logical_chunk_end(&units, 0, 511);
    assert_eq!(split, 511);
    assert_eq!(units[split].len(), 2);
    assert_eq!(classify_chunk_send(0, 4), ChunkSend::Zero);
    assert_eq!(classify_chunk_send(3, 4), ChunkSend::Odd { accepted: 3 });
    assert_eq!(
        classify_chunk_send(2, 4),
        ChunkSend::Partial { accepted: 2 }
    );
}

#[test]
fn crlf_and_edit_class_plan_one_unit() {
    assert_eq!(
        plan_logical_units("a\r\nb", None),
        vec![
            vec![InsertKey::Unicode(b'a' as u16)],
            vec![InsertKey::Unicode(0x0A)],
            vec![InsertKey::Unicode(b'b' as u16)],
        ]
    );
    assert_eq!(
        plan_insert_units_for_class("a\r\nb", Some("Edit")),
        vec![
            InsertKey::Unicode(b'a' as u16),
            InsertKey::VirtualKey(0x0D),
            InsertKey::Unicode(b'b' as u16),
        ]
    );
    assert!(edit_class_uses_vk_return("RICHEDIT50W"));
}

#[test]
fn edit_controls_use_virtual_tab_and_enter() {
    assert_eq!(
        plan_insert_units_for_class("\t\n", Some(" edit ")),
        vec![InsertKey::VirtualKey(0x09), InsertKey::VirtualKey(0x0D)]
    );
    assert_eq!(
        plan_insert_units("\t"),
        vec![InsertKey::Unicode(0x09)]
    );
}

#[test]
fn generation_abort_helper() {
    assert!(!insert_should_abort(3, 3));
    assert!(insert_should_abort(3, 4));
}

#[test]
fn hotkey_wait_completes_on_release_or_timeout() {
    assert!(hotkey_wait_complete(0, false, 300));
    assert!(!hotkey_wait_complete(16, true, 300));
    assert!(hotkey_wait_complete(300, true, 300));
    assert!(hotkey_keys_to_release("Ctrl+Shift+Space").contains(&0x20));
}

#[test]
fn hotkey_tokens_map_to_virtual_keys() {
    assert_eq!(
        hotkey_keys_to_release(" ctrl + ALT+Q+Win"),
        vec![0x11, 0x12, 0x5B]
    );
}

#[test]
fn unicode_chunks_keep_emoji_intact() {
    let thumbs = plan_logical_units("👍", None);
    assert_eq!(thumbs.len(), 1);
    assert_eq!(thumbs[0].len(), 2);
    assert_eq!(next_logical_chunk_end(&thumbs, 0, 256), 1);
    assert_eq!(adapt_unicode_chunk_size(512, 80), UNICODE_CHUNK_UNITS_MIN);
    assert_eq!(
        plan_insert_units("a\r\nb"),
        vec![
            InsertKey::Unicode(b'a' as u16),
            InsertKey::Unicode(0x0A),
            InsertKey::Unicode(b'b' as u16),
        ]
    );
}

#[test]
fn own_windows_are_skipped() {
    assert!(capture_skips_voxely_roots(1, Some(1), Some(2)));
    assert!(!capture_skips_voxely_roots(5, Some(1), Some(2)));
}

#[test]
fn outcome_events() {
    assert_eq!(insert_outcome_event(InsertOutcome::Inserted), None);
    assert_eq!(insert_outcome_event(InsertOutcome::PartialCopied), Some("partial"));
    assert_eq!(
        insert_outcome_event(InsertOutcome::Failed),
        Some("TextInsertionFailed")
    );
}

#[test]
fn switching_apps_mid_insert_stops_typing() {
    let target = FakeWorld::target(10);
    let text = "b".repeat(1300);
    let mut world = FakeWorld {
        captured: Some(target),
        foreground_root: Some(10),
        alive: true,
        switch_after_sends: Some(1),
        ..FakeWorld::default()
    };
    let never = || false;
    let outcome = run_insert(&mut world, request("unicode", &text, Some(target), &never));
    assert_eq!(outcome, InsertOutcome::PartialCopied);
    let sends = world
        .actions
        .borrow()
        .iter()
        .filter(|a| a.starts_with("send:"))
        .count();
    assert_eq!(sends, 1);
    assert_eq!(world.clipboard.as_deref(), Some(text.as_str()));
}

#[test]
fn empty_text_is_inserted_without_touching_the_world() {
    let mut world = FakeWorld::default();
    let never = || false;
    assert_eq!(
        run_insert(&mut world, request("unicode", "", None, &never)),
        InsertOutcome::Inserted
    );
    assert!(world.clipboard.is_none());
    assert!(world.actions.borrow().is_empty());
}

#[test]
fn abort_in_clipboard_mode_cancels_before_copy() {
    let mut world = FakeWorld::default();
    let abort = || true;
    assert_eq!(
        run_insert(&mut world, request("clipboard", "hi", None, &abort)),
        InsertOutcome::CancelledBeforeDelivery
    );
    assert!(world.clipboard.is_none());
    assert!(world.actions.borrow().is_empty());
}

#[test]
fn failed_restore_copies_as_user_switched() {
    let target = FakeWorld::target(10);
    let mut world = FakeWorld {
        captured: Some(target),
        foreground_root: Some(3),
        overlay_root: Some(3),
        main_root: Some(4),
        alive: true,
        restore_ok: false,
        ..FakeWorld::default()
    };
    let never = || false;
    assert_eq!(
        run_insert(&mut world, request("unicode", "hi", Some(target), &never)),
        InsertOutcome::Copied {
            reason: CopyReason::UserSwitched
        }
    );
    assert_eq!(
        world.actions.borrow().as_slice(),
        &["restore".to_string(), "copy:2".to_string()]
    );
}
