use voxely::app::compare::{apply_slot_error, apply_slot_success, running_slots};
use voxely::app::lifecycle::data_dir_override_allowed;
use voxely::app::machine::{apply_event, SessionEvent, SessionState};
use voxely::error::AppError;
use voxely::history::repository::{
    check_audio_name, contained_audio_path, history_page, RecordingRecord, RecordingStatus,
};
use voxely::transcription::openrouter::{
    reply_step, start_step, AttemptReply, SttAction, SttProgress, TranscriptionSuccess,
};
use voxely::transcription::retry::{ClassifiedError, RetryClass, RetryPolicy, RetryScheduler};
use voxely::windows_int::insert_engine::{next_logical_chunk_end, plan_logical_units};

fn success(text: &str) -> TranscriptionSuccess {
    TranscriptionSuccess {
        text: text.to_string(),
        usage_json: None,
        generation_id: Some("g".to_string()),
        latency_ms: 0,
        attempt: 0,
        model: String::new(),
    }
}

#[test]
fn start_step_runs_first_attempt_and_reports_it() {
    let mut scheduler = RetryScheduler::new(RetryPolicy::default(), 0);
    let step = start_step(&mut scheduler, false, 0, 10_000);
    assert_eq!(step.progress, vec![SttProgress::Attempt(1)]);
    assert!(matches!(step.action, SttAction::Run { attempt: 1, timeout_ms } if timeout_ms > 0));
    assert_eq!(scheduler.attempts_used, 1);
}

#[test]
fn start_step_ends_when_cancelled() {
    let mut scheduler = RetryScheduler::new(RetryPolicy::default(), 0);
    let step = start_step(&mut scheduler, true, 0, 10_000);
    assert!(step.progress.is_empty());
    assert!(matches!(step.action, SttAction::Done(Err(AppError::Cancelled))));
    assert_eq!(scheduler.attempts_used, 0);
}

#[test]
fn start_step_gives_up_past_deadline() {
    let mut scheduler = RetryScheduler::new(RetryPolicy::default(), 0);
    let step = start_step(&mut scheduler, false, 720_000, 10_000);
    assert!(matches!(
        step.action,
        SttAction::Done(Err(AppError::RetryDeadlineExceeded))
    ));
}

#[test]
fn reply_step_success_stamps_attempt_latency_and_model() {
    let mut scheduler = RetryScheduler::new(RetryPolicy::default(), 0);
    let _ = start_step(&mut scheduler, false, 0, 10_000);
    let step = reply_step(
        &scheduler,
        1,
        AttemptReply::Succeeded(success("hello")),
        false,
        350,
        350,
        "model-a",
    );
    assert_eq!(step.progress.len(), 1);
    assert!(matches!(
        &step.progress[0],
        SttProgress::Finished { attempt: 1, outcome: "success", http_status: Some(200), latency_ms: 350, category: None }
    ));
    match step.action {
        SttAction::Done(Ok(t)) => {
            assert_eq!(t.text, "hello");
            assert_eq!(t.attempt, 1);
            assert_eq!(t.latency_ms, 350);
            assert_eq!(t.model, "model-a");
        }
        _ => panic!("expected a success"),
    }
}

#[test]
fn reply_step_success_after_cancel_is_cancelled() {
    let scheduler = RetryScheduler::new(RetryPolicy::default(), 0);
    let step = reply_step(&scheduler, 1, AttemptReply::Succeeded(success("x")), true, 5, 5, "m");
    assert!(matches!(step.action, SttAction::Done(Err(AppError::Cancelled))));
    assert!(matches!(
        &step.progress[0],
        SttProgress::Finished { outcome: "cancelled", .. }
    ));
}

#[test]
fn reply_step_retryable_failure_waits_then_terminal_gives_up() {
    let mut scheduler = RetryScheduler::new(RetryPolicy::default(), 0);
    let _ = start_step(&mut scheduler, false, 0, 10_000);
    let retryable = ClassifiedError {
        class: RetryClass::Retryable,
        error: AppError::RateLimited,
        http_status: Some(429),
        retry_after_ms: Some(1_000),
    };
    let step = reply_step(&scheduler, 1, AttemptReply::Failed(retryable), false, 40, 40, "m");
    assert_eq!(step.progress.len(), 2);
    assert!(matches!(
        &step.progress[0],
        SttProgress::Finished { attempt: 1, outcome: "error", http_status: Some(429), .. }
    ));
    assert_eq!(
        step.progress[1],
        SttProgress::Waiting {
            attempt: 1,
            delay_ms: 1_000
        }
    );
    assert!(matches!(step.action, SttAction::Wait { delay_ms: 1_000 }));
    let terminal = ClassifiedError {
        class: RetryClass::Terminal,
        error: AppError::InvalidApiKey,
        http_status: Some(401),
        retry_after_ms: None,
    };
    let step = reply_step(&scheduler, 1, AttemptReply::Failed(terminal), false, 40, 40, "m");
    assert_eq!(step.progress.len(), 1);
    assert!(matches!(step.action, SttAction::Done(Err(AppError::InvalidApiKey))));
}

#[test]
fn compare_slots_start_running_and_record_results() {
    let models = vec!["a/one".to_string(), "b/two".to_string()];
    let mut slots = running_slots(&models);
    assert_eq!(slots.len(), 2);
    assert!(slots.iter().all(|s| s.status == "running" && s.text.is_none()));
    assert_eq!(slots[1].model, "b/two");
    let mut done = success("text one");
    done.attempt = 2;
    done.latency_ms = 900;
    apply_slot_success(&mut slots, 0, "a/one", done);
    assert_eq!(slots[0].status, "done");
    assert_eq!(slots[0].text.as_deref(), Some("text one"));
    assert_eq!(slots[0].attempt, 2);
    assert_eq!(slots[0].latency_ms, Some(900));
    apply_slot_error(&mut slots, 1, "b/two", AppError::RequestTimeout);
    assert_eq!(slots[1].status, "error");
    assert_eq!(slots[1].error.as_deref(), Some("RequestTimeout"));
    assert_eq!(slots[1].text, None);
    let before = slots.clone();
    apply_slot_error(&mut slots, 5, "c", AppError::RequestTimeout);
    assert_eq!(slots, before);
}

fn row(id: &str) -> RecordingRecord {
    RecordingRecord {
        id: id.to_string(),
        created_at_ms: 0,
        updated_at_ms: 0,
        duration_ms: 0,
        raw_audio_path: None,
        processed_audio_path: None,
        transcript: None,
        status: RecordingStatus::Completed,
        provider: "openrouter".to_string(),
        model: "m".to_string(),
        attempt_count: 1,
        last_error_code: None,
        last_error_message: None,
        request_started_at_ms: None,
        completed_at_ms: None,
        usage_json: None,
        generation_id: None,
        latency_ms: None,
    }
}

#[test]
fn page_keeps_limit_and_points_at_last_kept_row() {
    let rows = vec![row("c"), row("b"), row("a")];
    let page = history_page(false, rows, 2, 3);
    assert_eq!(page.items.len(), 2);
    assert!(page.has_more);
    assert_eq!(page.next_cursor.as_deref(), Some("b"));
    assert_eq!(page.total, 3);
    let last = history_page(false, vec![row("a")], 2, 3);
    assert_eq!(last.items.len(), 1);
    assert!(!last.has_more);
    assert_eq!(last.next_cursor, None);
}

#[test]
fn missing_anchor_gives_empty_final_page() {
    let page = history_page(true, vec![row("a")], 50, 7);
    assert!(page.items.is_empty());
    assert!(!page.has_more);
    assert_eq!(page.next_cursor, None);
    assert_eq!(page.total, 7);
}

#[test]
fn audio_names_cannot_leave_the_audio_directory() {
    assert!(check_audio_name("1.processed.wav", false).is_ok());
    assert_eq!(
        check_audio_name("..\\secrets.wav", false),
        Err(AppError::StorageFailed("invalid audio path".into()))
    );
    assert!(check_audio_name("C:\\x.wav", true).is_err());
    assert_eq!(
        contained_audio_path(false, true, "C:\\other\\x.wav".into()),
        Err(AppError::StorageFailed("audio path escaped".into()))
    );
    assert_eq!(contained_audio_path(true, false, "x".into()), Ok(None));
    assert_eq!(
        contained_audio_path(true, true, "C:\\a\\x.wav".into()),
        Ok(Some("C:\\a\\x.wav".to_string()))
    );
}

#[test]
fn data_dir_override_needs_absolute_perf_dir_under_roaming() {
    assert!(data_dir_override_allowed(true, Some("VoxelyPerf-1"), true));
    assert!(!data_dir_override_allowed(false, Some("VoxelyPerf"), true));
    assert!(!data_dir_override_allowed(true, Some("Voxely"), true));
    assert!(!data_dir_override_allowed(true, Some("VoxelyPerf"), false));
    assert!(!data_dir_override_allowed(true, None, true));
}

#[test]
fn refused_event_is_written_as_debug_writes_it() {
    let event = SessionEvent::TranscriptAttemptStarted { attempt: 2 };
    let expected = format!("{:?}", event);
    let err = apply_event(SessionState::Recording, event).unwrap_err();
    assert_eq!(err.event, expected);
    assert_eq!(err.event, "TranscriptAttemptStarted { attempt: 2 }");
    let event = SessionEvent::Failed(AppError::AudioCaptureFailed("no \"mic\"\n\t\\ ok".into()));
    let expected = format!("{:?}", event);
    let err = apply_event(SessionState::Idle, event).unwrap_err();
    assert_eq!(err.event, expected);
    let event = SessionEvent::RetryScheduled {
        attempt: 3,
        delay_ms: 1500,
    };
    let err = apply_event(SessionState::Idle, event).unwrap_err();
    assert_eq!(
        err.event,
        format!(
            "RetryScheduled {{ attempt: 3, delay: {:?} }}",
            std::time::Duration::from_millis(1500)
        )
    );
    assert_eq!(err.event, "RetryScheduled { attempt: 3, delay: 1.5s }");
    let err = apply_event(
        SessionState::Idle,
        SessionEvent::RetryScheduled {
            attempt: 1,
            delay_ms: 500,
        },
    )
    .unwrap_err();
    assert_eq!(err.event, "RetryScheduled { attempt: 1, delay: 500ms }");
    let event = SessionEvent::Failed(AppError::StorageFailed(
        "e\u{301} it's \u{200b}\u{7}".into(),
    ));
    let expected = format!("{:?}", event);
    let err = apply_event(SessionState::Idle, event).unwrap_err();
    assert_eq!(err.event, expected);
}

#[test]
fn consecutive_chunks_cover_every_unit_once() {
    let mut text = "a".repeat(511);
    text.push('😀');
    text.push_str(&"b".repeat(700));
    let units = plan_logical_units(&text, None);
    let mut ends = Vec::new();
    let mut cursor = 0usize;
    while cursor < units.len() {
        let end = next_logical_chunk_end(&units, cursor, 512);
        assert!(end > cursor && end <= units.len());
        let keys: usize = units[cursor..end].iter().map(|u| u.len().max(1)).sum();
        assert!(keys <= 512 || end == cursor + 1);
        if end < units.len() {
            assert!(keys + units[end].len().max(1) > 512);
        }
        ends.push(end);
        cursor = end;
    }
    assert_eq!(ends[0], 511);
    assert_eq!(ends[1], 1022);
    assert_eq!(*ends.last().unwrap(), units.len());
}
