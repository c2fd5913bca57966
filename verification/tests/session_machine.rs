use voxely::app::machine::{
    apply_event, is_cancellable, is_recording_active, may_commit_session, toggle_hotkey_action,
    SessionEvent, SessionState, ToggleHotkeyAction,
};
use voxely::app::operations::{
    begin_transcription, finish_transcription, hide_overlay_allowed, lease_matches,
};
use voxely::app::session::{
    cancel_path, finish_stop_may_continue, history_retry_allowed, live_stt_success_path,
    processed_audio_name, progress_event, raw_audio_name, retry_release_events, retry_source,
    selected_input_device, should_auto_stop_capture, stale_processing_outcome,
    stop_pipeline_allowed, stt_language, stt_success_steps, CancelPath, SttSuccessStep,
};
use voxely::error::AppError;
use voxely::history::repository::{RecordingFiles, RecordingStatus};
use voxely::transcription::openrouter::SttProgress;

fn walk(events: &[SessionEvent]) -> SessionState {
    events
        .iter()
        .cloned()
        .fold(SessionState::Idle, |state, event| {
            apply_event(state, event).expect("legal")
        })
}

#[test]
fn happy_path() {
    let state = walk(&[
        SessionEvent::StartRequested,
        SessionEvent::CaptureReady,
        SessionEvent::StopRequested,
        SessionEvent::Saved,
        SessionEvent::Saved,
        SessionEvent::Processed,
        SessionEvent::TranscriptAttemptStarted { attempt: 1 },
        SessionEvent::Succeeded,
    ]);
    assert_eq!(state, SessionState::Completed);
}

#[test]
fn failed_allows_new_start() {
    let failed = SessionState::Failed {
        message: "Нет API-ключа OpenRouter".into(),
        code: "InvalidApiKey".into(),
    };
    let next = apply_event(failed, SessionEvent::StartRequested).unwrap();
    assert_eq!(next, SessionState::StartingRecording);
}

#[test]
fn processing_failed_event_is_legal() {
    let state = walk(&[
        SessionEvent::StartRequested,
        SessionEvent::CaptureReady,
        SessionEvent::StopRequested,
        SessionEvent::Saved,
        SessionEvent::Saved,
        SessionEvent::Failed(AppError::InvalidApiKey),
    ]);
    match state {
        SessionState::Failed { code, .. } => assert_eq!(code, "InvalidApiKey"),
        other => panic!("expected failed, got {other:?}"),
    }
}

#[test]
fn double_start_rejected() {
    let state = apply_event(SessionState::Idle, SessionEvent::StartRequested).unwrap();
    let err = apply_event(state, SessionEvent::StartRequested).unwrap_err();
    assert!(err.event.contains("StartRequested"));
}

#[test]
fn stop_during_start() {
    let state = walk(&[SessionEvent::StartRequested, SessionEvent::StopRequested]);
    assert_eq!(state, SessionState::StoppingRecording);
}

#[test]
fn retry_then_success() {
    let state = walk(&[
        SessionEvent::StartRequested,
        SessionEvent::CaptureReady,
        SessionEvent::StopRequested,
        SessionEvent::Saved,
        SessionEvent::Saved,
        SessionEvent::Processed,
        SessionEvent::RetryScheduled {
            attempt: 1,
            delay_ms: 500,
        },
        SessionEvent::TranscriptAttemptStarted { attempt: 2 },
        SessionEvent::Succeeded,
        SessionEvent::Dismiss,
    ]);
    assert_eq!(state, SessionState::Idle);
}

#[test]
fn cancel_from_recording_returns_idle() {
    let state = walk(&[
        SessionEvent::StartRequested,
        SessionEvent::CaptureReady,
        SessionEvent::Cancelled,
    ]);
    assert_eq!(state, SessionState::Idle);
}

#[test]
fn cancel_from_transcribing_returns_idle() {
    let state = walk(&[
        SessionEvent::StartRequested,
        SessionEvent::CaptureReady,
        SessionEvent::StopRequested,
        SessionEvent::Saved,
        SessionEvent::Saved,
        SessionEvent::Processed,
        SessionEvent::Cancelled,
    ]);
    assert_eq!(state, SessionState::Idle);
    assert!(!is_cancellable(&state));
}

#[test]
fn transcribing_is_cancellable() {
    assert!(is_cancellable(&SessionState::Transcribing { attempt: 1 }));
    assert!(is_cancellable(&SessionState::ProcessingAudio));
    assert!(is_cancellable(&SessionState::RetryWaiting {
        attempt: 1,
        delay_ms: 500,
    }));
    assert!(!is_recording_active(&SessionState::Transcribing {
        attempt: 1
    }));
}

#[test]
fn transcribing_hotkey_cancels() {
    assert_eq!(
        toggle_hotkey_action(&SessionState::Transcribing { attempt: 1 }),
        ToggleHotkeyAction::Cancel
    );
    assert_eq!(
        toggle_hotkey_action(&SessionState::Idle),
        ToggleHotkeyAction::Start
    );
    assert_eq!(
        toggle_hotkey_action(&SessionState::Recording),
        ToggleHotkeyAction::Stop
    );
}

#[test]
fn idle_save_does_not_revive_pipeline() {
    let err = apply_event(SessionState::Idle, SessionEvent::Saved).unwrap_err();
    assert!(err.event.contains("Saved"));
}

#[test]
fn retry_from_idle_enters_transcribing() {
    let state = walk(&[SessionEvent::TranscriptAttemptStarted { attempt: 1 }]);
    assert_eq!(state, SessionState::Transcribing { attempt: 1 });
    assert!(is_cancellable(&state));
}

#[test]
fn late_success_is_rejected_after_generation_bump() {
    assert!(may_commit_session(3, 3, false));
    assert!(!may_commit_session(3, 4, false));
    assert!(!may_commit_session(3, 3, true));
}

#[test]
fn rapid_start_stop_is_legal() {
    let state = walk(&[
        SessionEvent::StartRequested,
        SessionEvent::StopRequested,
        SessionEvent::Saved,
        SessionEvent::SaveFailed(AppError::StorageFailed("disk".into())),
    ]);
    match state {
        SessionState::Failed { .. } => {}
        other => panic!("expected failed, got {other:?}"),
    }
}

#[test]
fn failure_carries_code_and_message() {
    let state = walk(&[
        SessionEvent::StartRequested,
        SessionEvent::CaptureFailed(AppError::MicrophoneUnavailable),
    ]);
    assert_eq!(
        state,
        SessionState::Failed {
            message: "Микрофон недоступен".into(),
            code: "MicrophoneUnavailable".into(),
        }
    );
}

#[test]
fn shutdown_is_accepted_everywhere() {
    assert_eq!(
        apply_event(SessionState::Recording, SessionEvent::Shutdown).unwrap(),
        SessionState::StoppingRecording
    );
    assert_eq!(
        apply_event(SessionState::Saving, SessionEvent::Shutdown).unwrap(),
        SessionState::Idle
    );
    assert_eq!(
        apply_event(SessionState::Completed, SessionEvent::Shutdown).unwrap(),
        SessionState::Idle
    );
}

#[test]
fn refused_event_keeps_state() {
    let err = apply_event(SessionState::Completed, SessionEvent::Cancelled).unwrap_err();
    assert_eq!(err.from, SessionState::Completed);
    assert_eq!(err.event, "Cancelled");
}

#[test]
fn stale_generation_does_not_match() {
    assert!(lease_matches(3, 3));
    assert!(!lease_matches(3, 4));
    assert!(!lease_matches(0, 0));
}

#[test]
fn hide_blocked_while_new_session_live() {
    assert!(hide_overlay_allowed(&SessionState::Recording, 2, 2));
    assert!(hide_overlay_allowed(&SessionState::Idle, 2, 2));
    assert!(!hide_overlay_allowed(&SessionState::Idle, 2, 3));
}

#[test]
fn live_stt_success_notifies_history_ui() {
    assert_eq!(
        live_stt_success_path(),
        [
            SttSuccessStep::PersistCompleted,
            SttSuccessStep::EmitHistory,
            SttSuccessStep::HideOverlay,
            SttSuccessStep::PublishIdle,
            SttSuccessStep::SpawnInsert,
        ]
    );
    assert_eq!(live_stt_success_path()[0], SttSuccessStep::PersistCompleted);
    assert_eq!(stt_success_steps()[0], SttSuccessStep::EmitHistory);
    assert_eq!(stt_success_steps()[3], SttSuccessStep::SpawnInsert);
}

#[test]
fn cancelled_generation_does_not_transcribe() {
    assert!(!stop_pipeline_allowed(false, true));
    assert!(!stop_pipeline_allowed(true, false));
    assert!(stop_pipeline_allowed(true, true));
}

#[test]
fn idle_stop_does_not_continue_without_id() {
    assert!(!finish_stop_may_continue(&SessionState::Idle, false));
    assert!(!finish_stop_may_continue(&SessionState::Idle, true));
    assert!(!finish_stop_may_continue(
        &SessionState::StoppingRecording,
        false
    ));
    assert!(finish_stop_may_continue(
        &SessionState::StoppingRecording,
        true
    ));
}

#[test]
fn truncated_capture_auto_stops_only_while_recording() {
    assert!(should_auto_stop_capture(&SessionState::Recording, true));
    assert!(!should_auto_stop_capture(&SessionState::Recording, false));
    assert!(!should_auto_stop_capture(
        &SessionState::StoppingRecording,
        true
    ));
    assert!(!should_auto_stop_capture(&SessionState::Idle, true));
}

#[test]
fn code_matches_variant_name() {
    assert_eq!(AppError::Cancelled.code(), "Cancelled");
    assert_eq!(
        AppError::TranscriptionInProgress.code(),
        "TranscriptionInProgress"
    );
    assert_eq!(AppError::Interrupted.code(), "Interrupted");
    assert_eq!(AppError::RequestTimeout.code(), "RequestTimeout");
}

#[test]
fn user_messages_are_russian_copy() {
    assert_eq!(AppError::InvalidApiKey.user_message(), "Нет API-ключа OpenRouter");
    assert_eq!(
        AppError::TextInsertionFailed("x".into()).user_message(),
        "Не удалось вставить текст"
    );
}

#[test]
fn history_retry_does_not_drive_live_hud() {
    assert!(history_retry_allowed(&SessionState::Idle).is_ok());
    assert!(history_retry_allowed(&SessionState::Completed).is_ok());
    assert_eq!(
        history_retry_allowed(&SessionState::Transcribing { attempt: 1 }).unwrap_err(),
        AppError::TranscriptionInProgress
    );
    assert_eq!(
        toggle_hotkey_action(&SessionState::Idle),
        ToggleHotkeyAction::Start
    );
}

#[test]
fn startup_marks_stale_processing_with_audio_as_interrupted() {
    let (status, err) = stale_processing_outcome(true);
    assert_eq!(status, RecordingStatus::Interrupted);
    assert_eq!(err.code(), "Interrupted");
}

#[test]
fn startup_fails_stale_processing_without_audio() {
    let (status, err) = stale_processing_outcome(false);
    assert_eq!(status, RecordingStatus::Failed);
    assert_eq!(err.code(), "StorageFailed");
}

#[test]
fn released_history_retry_leaves_the_session_idle() {
    for error in [None, Some(AppError::Cancelled), Some(AppError::Interrupted)] {
        for start in [
            SessionState::Transcribing { attempt: 2 },
            SessionState::RetryWaiting {
                attempt: 2,
                delay_ms: 500,
            },
        ] {
            let mut state = start;
            for event in retry_release_events(error.clone()) {
                state = apply_event(state, event).expect("legal");
            }
            assert_eq!(state, SessionState::Idle);
        }
    }
    assert_eq!(
        retry_release_events(Some(AppError::Cancelled)),
        vec![SessionEvent::Cancelled]
    );
}

#[test]
fn pipeline_names_and_hints() {
    assert_eq!(stt_language("auto"), None);
    assert_eq!(stt_language("ru"), Some("ru"));
    assert_eq!(selected_input_device("default"), None);
    assert_eq!(selected_input_device("USB Mic"), Some("USB Mic"));
    assert_eq!(raw_audio_name("abc"), "abc.raw.wav");
    assert_eq!(processed_audio_name("abc"), "abc.processed.wav");
    let mut rec = RecordingFiles {
        raw_audio_path: Some("abc.raw.wav".into()),
        processed_audio_path: None,
    };
    assert_eq!(retry_source(&rec).unwrap(), "abc.raw.wav");
    rec.processed_audio_path = Some("abc.processed.wav".into());
    assert_eq!(retry_source(&rec).unwrap(), "abc.processed.wav");
    rec.processed_audio_path = None;
    rec.raw_audio_path = None;
    assert_eq!(
        retry_source(&rec).unwrap_err(),
        AppError::StorageFailed("audio missing".into())
    );
}

#[test]
fn cancel_discards_capture_or_aborts_pipeline() {
    assert_eq!(cancel_path(&SessionState::Recording), CancelPath::DiscardCapture);
    assert_eq!(cancel_path(&SessionState::StartingRecording), CancelPath::DiscardCapture);
    assert_eq!(cancel_path(&SessionState::Saving), CancelPath::AbortPipeline);
    assert_eq!(
        cancel_path(&SessionState::RetryWaiting {
            attempt: 2,
            delay_ms: 500
        }),
        CancelPath::AbortPipeline
    );
    assert_eq!(cancel_path(&SessionState::Idle), CancelPath::Nothing);
    assert_eq!(cancel_path(&SessionState::Completed), CancelPath::Nothing);
}

#[test]
fn progress_reports_drive_the_session() {
    assert_eq!(
        progress_event(&SttProgress::Attempt(2)),
        Some(SessionEvent::TranscriptAttemptStarted { attempt: 2 })
    );
    assert_eq!(
        progress_event(&SttProgress::Waiting {
            attempt: 1,
            delay_ms: 500
        }),
        Some(SessionEvent::RetryScheduled {
            attempt: 1,
            delay_ms: 500
        })
    );
    let finished = SttProgress::Finished {
        attempt: 1,
        outcome: "success",
        http_status: Some(200),
        latency_ms: 10,
        category: None,
    };
    assert_eq!(progress_event(&finished), None);
}

#[test]
fn second_transcription_claim_is_busy() {
    let mut in_flight: Vec<String> = Vec::new();
    begin_transcription(&mut in_flight, "rec-1").unwrap();
    assert_eq!(
        begin_transcription(&mut in_flight, "rec-1").unwrap_err(),
        AppError::TranscriptionInProgress
    );
    begin_transcription(&mut in_flight, "rec-2").unwrap();
    finish_transcription(&mut in_flight, "rec-1");
    assert_eq!(in_flight, vec!["rec-2".to_string()]);
    begin_transcription(&mut in_flight, "rec-1").unwrap();
}
