use voxely::error::AppError;
use voxely::transcription::openrouter::{
    default_base_url, drain_prewarm_body, finished_progress, head_prewarm_accepted,
    is_http_success, language_field, millis_u64, prewarm_urls, stt_http_options,
    stt_model_entry, transcription_url, transport_needs_rebuild, upload_too_large, AttemptEnd,
    SttProgress,
};
use voxely::transcription::retry::{
    backoff_delay, classify_http, classify_http_status, classify_io, classify_transport_failure,
    error_category,
    is_connect_stage_eof, parse_retry_after, retry_after_from_date, transport_category,
    truncated_body, AttemptDecision, RetryClass, RetryPolicy, RetryScheduler, TransportCategory,
};

#[test]
fn additional_retries_mean_initial_plus_n() {
    let policy = RetryPolicy::default();
    assert_eq!(policy.max_attempts(), 4);
    let mut off = policy.clone();
    off.automatic_retries = false;
    assert_eq!(off.max_attempts(), 1);
}

#[test]
fn terminal_statuses_do_not_retry() {
    for status in [400, 401, 403, 404, 413, 422] {
        assert_eq!(
            classify_http_status(status, None).class,
            RetryClass::Terminal
        );
    }
}

#[test]
fn retryable_statuses() {
    for status in [408, 429, 500, 502, 503, 504] {
        assert_eq!(
            classify_http_status(status, None).class,
            RetryClass::Retryable
        );
    }
}

#[test]
fn status_errors_carry_the_status() {
    assert_eq!(
        classify_http_status(418, None).error,
        AppError::RequestValidationFailed("HTTP 418".into())
    );
    assert_eq!(classify_http_status(413, None).error, AppError::RecordingTooLarge);
    assert_eq!(
        classify_http_status(503, Some(7000)).retry_after_ms,
        Some(7000)
    );
    assert_eq!(classify_http_status(401, Some(7000)).retry_after_ms, None);
}

#[test]
fn sending_request_failure_is_retryable() {
    let classified = classify_io(
        "error sending request for url (https://openrouter.ai/api/v1/audio/transcriptions)",
    );
    assert_eq!(classified.class, RetryClass::Retryable);
    assert!(matches!(classified.error, AppError::ConnectionFailed(_)));
}

#[test]
fn tls_handshake_eof_is_retryable_connect_stage() {
    let classified = classify_io("error sending request: connection error: tls handshake eof");
    assert_eq!(classified.class, RetryClass::Retryable);
    assert!(is_connect_stage_eof(&classified.error));
    assert_eq!(error_category(&classified.error), "connect_eof");
    match classified.error {
        AppError::ConnectionFailed(message) => {
            assert!(message.contains("tls handshake eof"));
        }
        other => panic!("expected ConnectionFailed, got {other:?}"),
    }
}

#[test]
fn connect_stage_timeout_is_connection_failed_not_request_timeout() {
    let classified = classify_io(
        "error sending request for url (https://openrouter.ai/api/v1/audio/transcriptions): error trying to connect: tcp connect error: connection timed out",
    );
    assert_eq!(classified.class, RetryClass::Retryable);
    match classified.error {
        AppError::ConnectionFailed(message) => {
            assert!(message.contains("connection timed out"));
        }
        other => panic!("expected ConnectionFailed, got {other:?}"),
    }
}

#[test]
fn total_request_timeout_stays_request_timeout() {
    let classified = classify_io(
        "error sending request for url (https://openrouter.ai/api/v1/audio/transcriptions): operation timed out",
    );
    assert_eq!(classified.error, AppError::RequestTimeout);
    assert_eq!(classified.error.user_message(), "Превышено время ожидания");
}

#[test]
fn certificate_trust_errors_are_terminal() {
    let classified = classify_io("invalid peer certificate: UnknownIssuer");
    assert_eq!(classified.class, RetryClass::Terminal);
    assert_eq!(error_category(&classified.error), "tls_trust");
}

#[test]
fn dns_failure_is_network_unavailable() {
    let classified = classify_io("dns error: failed to lookup address");
    assert_eq!(classified.class, RetryClass::Retryable);
    assert_eq!(classified.error, AppError::NetworkUnavailable);
}

#[test]
fn connect_eof_uses_fast_backoff() {
    let policy = RetryPolicy::default();
    let start = 1_000u64;
    let mut scheduler = RetryScheduler::new(policy, start);
    let _ = scheduler.start_attempt(start, 1_000);
    let classified = classify_io("tls handshake eof");
    let decision = scheduler.after_failure(&classified, start, 0);
    match decision {
        AttemptDecision::Wait { delay_ms, .. } => {
            assert!(delay_ms <= 200);
        }
        other => panic!("expected wait, got {other:?}"),
    }
}

#[test]
fn http_and_timeout_categories() {
    assert_eq!(error_category(&AppError::RequestTimeout), "timeout");
    assert_eq!(error_category(&AppError::OpenRouterServerError), "http");
    assert_eq!(
        transport_category("operation timed out"),
        TransportCategory::Timeout
    );
    assert_eq!(TransportCategory::Reset.as_str(), "reset");
}

#[test]
fn provider_could_not_be_reached_is_retryable() {
    let classified = classify_http(
        400,
        None,
        r#"{"error":{"message":"Provider returned error: The model could not be reached"}}"#,
    );
    assert_eq!(classified.class, RetryClass::Retryable);
    assert_eq!(classified.error, AppError::ProviderUnavailable);
}

#[test]
fn unknown_model_is_terminal_with_body() {
    let classified = classify_http(404, None, "Model not found: foo/bar");
    assert_eq!(classified.class, RetryClass::Terminal);
    assert_eq!(
        classified.error,
        AppError::InvalidModel("Model not found: foo/bar".into())
    );
}

#[test]
fn long_bodies_are_cut() {
    let body = "я".repeat(401);
    let cut = truncated_body(&body);
    assert_eq!(cut.chars().count(), 403);
    assert!(cut.ends_with("..."));
    assert_eq!(truncated_body("short"), "short");
}

#[test]
fn retry_after_seconds() {
    assert_eq!(parse_retry_after("2", 0), Some(2_000));
    assert_eq!(parse_retry_after(" 2 ", 0), Some(2_000));
}

#[test]
fn retry_after_http_date() {
    let later = 1_445_412_480u64;
    assert_eq!(
        parse_retry_after("Wed, 21 Oct 2015 07:28:00 GMT", (later as i64 - 3) * 1000),
        Some(3_000)
    );
    assert_eq!(
        parse_retry_after("Wed, 21 Oct 2015 07:28:00 GMT", (later as i64 + 3) * 1000),
        Some(0)
    );
    assert_eq!(parse_retry_after("soon", 0), None);
    assert_eq!(retry_after_from_date(Some(10), 4_500), Some(5_500));
}

#[test]
fn backoff_never_exceeds_max() {
    let policy = RetryPolicy::default();
    let delay = backoff_delay(&policy, 8, 200);
    assert!(delay <= policy.max_retry_delay_ms);
}

#[test]
fn backoff_doubles_then_caps() {
    let policy = RetryPolicy::default();
    assert_eq!(backoff_delay(&policy, 1, 0), 500);
    assert_eq!(backoff_delay(&policy, 2, 0), 1000);
    assert_eq!(backoff_delay(&policy, 2, 100), 1100);
    assert_eq!(backoff_delay(&policy, 4, 0), 3000);
}

#[test]
fn overall_deadline_wins() {
    let mut policy = RetryPolicy::default();
    policy.total_operation_timeout_ms = 10;
    let start = 1_000u64;
    let mut scheduler = RetryScheduler::new(policy, start);
    let _ = scheduler.start_attempt(start, 1_000);
    let classified = classify_http_status(503, Some(30_000));
    let decision = scheduler.after_failure(&classified, start + 5, 0);
    assert_eq!(
        decision,
        AttemptDecision::GiveUp(AppError::RetryDeadlineExceeded)
    );
}

#[test]
fn never_exceeds_max_attempts() {
    let policy = RetryPolicy::default();
    let start = 1_000u64;
    let mut scheduler = RetryScheduler::new(policy.clone(), start);
    for _ in 0..policy.max_attempts() {
        match scheduler.start_attempt(start, 0) {
            AttemptDecision::Run { .. } => {}
            other => panic!("expected run, got {other:?}"),
        }
    }
    assert!(matches!(
        scheduler.start_attempt(start, 0),
        AttemptDecision::GiveUp(_)
    ));
}

#[test]
fn terminal_failure_gives_up_with_its_error() {
    let policy = RetryPolicy::default();
    let mut scheduler = RetryScheduler::new(policy, 0);
    let _ = scheduler.start_attempt(0, 0);
    let classified = classify_http_status(401, None);
    assert_eq!(
        scheduler.after_failure(&classified, 0, 0),
        AttemptDecision::GiveUp(AppError::InvalidApiKey)
    );
}

#[test]
fn ten_second_audio_exceeds_old_forty_second_cap() {
    let timeout = RetryPolicy::default().scaled_request_timeout(10_000);
    assert!(timeout > 40_000);
    assert_eq!(timeout, 45_000);
}

#[test]
fn eight_minute_audio_is_not_capped_at_forty() {
    let timeout = RetryPolicy::default().scaled_request_timeout(8 * 60 * 1000);
    assert!(timeout > 40_000);
    assert!(timeout <= 15 * 60 * 1000);
}

#[test]
fn client_options_and_base() {
    let opts = stt_http_options();
    assert!(opts.http1_only);
    assert_eq!(opts.pool_max_idle_per_host, 2);
    assert_eq!(default_base_url(), "https://openrouter.ai/api/v1");
}

#[test]
fn a_scheduled_wait_ends_in_a_run() {
    let policy = RetryPolicy::default();
    let start: u64 = 1_000;
    let mut scheduler = RetryScheduler::new(policy, start);
    assert!(matches!(
        scheduler.start_attempt(start, 5_000),
        AttemptDecision::Run { attempt: 1, .. }
    ));
    let failure = classify_http_status(503, None);
    let now: u64 = start + 20_000;
    let delay = match scheduler.after_failure(&failure, now, 100) {
        AttemptDecision::Wait { attempt: 1, delay_ms } => delay_ms,
        other => panic!("expected a wait, got {other:?}"),
    };
    match scheduler.start_attempt(now + delay, 5_000) {
        AttemptDecision::Run { attempt, timeout_ms } => {
            assert_eq!(attempt, 2);
            assert!(timeout_ms > 0);
        }
        other => panic!("expected a run, got {other:?}"),
    }
}

#[test]
fn requests_go_to_the_transcription_endpoint() {
    assert_eq!(
        transcription_url("https://openrouter.ai/api/v1"),
        "https://openrouter.ai/api/v1/audio/transcriptions"
    );
    assert_eq!(
        transcription_url("http://127.0.0.1:9/v1//"),
        "http://127.0.0.1:9/v1/audio/transcriptions"
    );
    assert_eq!(language_field(Some("auto")), None);
    assert_eq!(language_field(Some("ru")), Some("ru"));
    assert_eq!(language_field(None), None);
    assert!(is_http_success(204));
    assert!(!is_http_success(301));
    assert!(upload_too_large(25 * 1024 * 1024 + 1));
    assert!(!upload_too_large(25 * 1024 * 1024));
}

#[test]
fn transport_rebuilds_only_when_connect_timeout_changes() {
    assert!(!transport_needs_rebuild(8_000, 8_000));
    assert!(transport_needs_rebuild(8_000, 10_000));
}

#[test]
fn attempts_close_with_their_outcome() {
    assert_eq!(
        finished_progress(2, AttemptEnd::Succeeded, 150),
        SttProgress::Finished {
            attempt: 2,
            outcome: "success",
            http_status: Some(200),
            latency_ms: 150,
            category: None,
        }
    );
    assert_eq!(
        finished_progress(
            1,
            AttemptEnd::Failed {
                http_status: Some(503),
                category: "http_5xx",
            },
            90,
        ),
        SttProgress::Finished {
            attempt: 1,
            outcome: "error",
            http_status: Some(503),
            latency_ms: 90,
            category: Some("http_5xx".into()),
        }
    );
    assert_eq!(
        finished_progress(3, AttemptEnd::Cancelled, 5),
        SttProgress::Finished {
            attempt: 3,
            outcome: "cancelled",
            http_status: None,
            latency_ms: 5,
            category: Some("cancelled".into()),
        }
    );
}

#[test]
fn client_timeouts_split_by_stage() {
    let connect = classify_transport_failure("operation timed out", true, true);
    assert_eq!(connect.class, RetryClass::Retryable);
    assert_eq!(
        connect.error,
        AppError::ConnectionFailed("operation timed out".into())
    );
    let by_message = classify_transport_failure("error trying to connect: deadline", true, false);
    assert!(matches!(by_message.error, AppError::ConnectionFailed(_)));
    let request = classify_transport_failure("operation timed out", true, false);
    assert_eq!(request.error, AppError::RequestTimeout);
    assert_eq!(request.class, RetryClass::Retryable);
    let other = classify_transport_failure("invalid peer certificate: UnknownIssuer", false, false);
    assert_eq!(other.class, RetryClass::Terminal);
}

#[test]
fn prewarm_tries_head_then_get() {
    let (models, filtered) = prewarm_urls("https://openrouter.ai/api/v1/");
    assert_eq!(models, "https://openrouter.ai/api/v1/models");
    assert_eq!(
        filtered,
        "https://openrouter.ai/api/v1/models?output_modalities=transcription"
    );
    assert!(head_prewarm_accepted(200));
    assert!(head_prewarm_accepted(404));
    assert!(!head_prewarm_accepted(405));
    assert!(!head_prewarm_accepted(501));
    assert!(drain_prewarm_body(None));
    assert!(drain_prewarm_body(Some(256 * 1024)));
    assert!(!drain_prewarm_body(Some(256 * 1024 + 1)));
    assert_eq!(millis_u64(1_234), 1_234);
    assert_eq!(millis_u64(u128::MAX), u64::MAX);
}

#[test]
fn listed_models_fall_back_to_their_id() {
    let named = stt_model_entry("openai/whisper-large-v3", Some("Whisper"));
    assert_eq!(named.id, "openai/whisper-large-v3");
    assert_eq!(named.name, "Whisper");
    let bare = stt_model_entry("openai/gpt-transcribe", None);
    assert_eq!(bare.name, "openai/gpt-transcribe");
}
