use voxely::app::machine::SessionState;
use voxely::app::operations::start_recording_allowed;
use voxely::app::session::{processing_gate, processing_source, retry_plan};
use voxely::dsp::obs_mapping::{imported_order, parse_scene_collection, preview_source, ObsSourceFields};
use voxely::dsp::pipeline::FilterKind;
use voxely::error::AppError;
use voxely::history::repository::{
    audio_file_to_play, RecordingFiles, RecordingRecord, RecordingStatus,
};
use voxely::settings::{migrate_settings_fields, MigratedFields, RetrySettings, SETTINGS_REVISION};
use voxely::transcription::openrouter::{parse_stt_reply, reply_outcome};
use voxely::transcription::retry::RetryClass;

fn row(raw: Option<&str>, processed: Option<&str>) -> RecordingRecord {
    RecordingRecord {
        id: "r1".to_string(),
        created_at_ms: 0,
        updated_at_ms: 0,
        duration_ms: 1_000,
        raw_audio_path: raw.map(str::to_string),
        processed_audio_path: processed.map(str::to_string),
        transcript: None,
        status: RecordingStatus::Failed,
        provider: "openrouter".to_string(),
        model: "m".to_string(),
        attempt_count: 1,
        last_error_code: Some("RateLimited".to_string()),
        last_error_message: None,
        request_started_at_ms: None,
        completed_at_ms: None,
        usage_json: None,
        generation_id: None,
        latency_ms: None,
    }
}

#[test]
fn retry_plan_checks_in_order() {
    let busy = SessionState::Recording;
    assert_eq!(
        retry_plan(&busy, None, true, 5),
        Err(AppError::TranscriptionInProgress)
    );
    assert_eq!(
        retry_plan(&SessionState::Idle, None, true, 5),
        Err(AppError::StorageFailed("recording missing".into()))
    );
    assert_eq!(
        retry_plan(&SessionState::Idle, Some(row(None, None)), true, 5),
        Err(AppError::StorageFailed("audio missing".into()))
    );
    assert_eq!(
        retry_plan(&SessionState::Idle, Some(row(Some("r1.raw.wav"), None)), false, 5),
        Err(AppError::InvalidApiKey)
    );
    let (started, source) =
        retry_plan(&SessionState::Completed, Some(row(Some("r1.raw.wav"), Some("r1.processed.wav"))), true, 5)
            .unwrap();
    assert_eq!(source, "r1.processed.wav");
    assert_eq!(started.status, RecordingStatus::Processing);
    assert_eq!(started.updated_at_ms, 5);
    assert_eq!(started.last_error_code.as_deref(), Some("RateLimited"));
    let (_, raw_source) =
        retry_plan(&SessionState::Idle, Some(row(Some("r1.raw.wav"), None)), true, 5).unwrap();
    assert_eq!(raw_source, "r1.raw.wav");
}

#[test]
fn audio_lookup_refuses_unknown_ids() {
    assert_eq!(
        audio_file_to_play(None, true),
        Err(AppError::StorageFailed("not found".into()))
    );
    let raw_only = RecordingFiles {
        raw_audio_path: Some("a.raw.wav".into()),
        processed_audio_path: None,
    };
    assert_eq!(audio_file_to_play(Some(&raw_only), false), Ok(None));
    assert_eq!(
        audio_file_to_play(Some(&raw_only), true),
        Ok(Some("a.raw.wav".to_string()))
    );
}

#[test]
fn new_dictation_waits_for_transcriptions() {
    assert!(start_recording_allowed(&Vec::new()).is_ok());
    assert_eq!(
        start_recording_allowed(&vec!["r1".to_string()]),
        Err(AppError::TranscriptionInProgress)
    );
}

#[test]
fn stt_reply_keeps_text_and_usage() {
    let body = r#"{"text":"hello","usage":{"total_tokens":5,"cost":0.25}}"#;
    let ok = parse_stt_reply(body, 200, Some("gen-1".into()), "m1").unwrap();
    assert_eq!(ok.text, "hello");
    assert_eq!(ok.usage_json.as_deref(), Some(r#"{"cost":0.25,"total_tokens":5}"#));
    assert_eq!(ok.generation_id.as_deref(), Some("gen-1"));
    assert_eq!(ok.model, "m1");
    assert_eq!(ok.attempt, 1);
    assert_eq!(ok.latency_ms, 0);
    let plain = parse_stt_reply(r#"{"text":"x"}"#, 200, None, "m1").unwrap();
    assert_eq!(plain.usage_json, None);
}

#[test]
fn stt_reply_without_text_is_terminal_malformed() {
    for body in ["not json", r#"{"text":5}"#, r#"{"usage":{}}"#, "[1,2]"] {
        let err = parse_stt_reply(body, 201, None, "m").unwrap_err();
        assert_eq!(err.class, RetryClass::Terminal);
        assert_eq!(err.error, AppError::ResponseMalformed);
        assert_eq!(err.http_status, Some(201));
        assert_eq!(err.retry_after_ms, None);
    }
}

#[test]
fn parser_on_minimal_json() {
    let json = r#"{"sources":[]}"#;
    assert!(parse_scene_collection(json).unwrap().is_empty());
}

#[test]
fn parses_wasapi_mic() {
    let json = r#"{
      "aux-audio": [{
        "name": "Mic/Aux",
        "id": "wasapi_input_capture",
        "settings": { "device_id": "default" },
        "filters": [
          { "name": "EQ", "id": "basic_eq_filter", "enabled": true, "settings": {} },
          { "name": "Gain", "id": "gain_filter", "enabled": true, "settings": { "db": 2.0 } }
        ]
      }]
    }"#;
    let sources = parse_scene_collection(json).unwrap();
    assert_eq!(sources[0].source_name, "Mic/Aux");
    assert_eq!(sources[0].unsupported.len(), 1);
    assert!(sources[0]
        .filters
        .iter()
        .any(|f| f.mapped_kind == Some(FilterKind::Gain)));
    assert_eq!(sources[0].filters[1].settings, r#"{"db":2.0}"#);
}

#[test]
fn scene_import_selects_inputs_and_explains_gaps() {
    let json = r#"{
      "sources": [
        { "name": "Screen", "id": "monitor_capture", "filters": [] },
        { "name": "Mic", "id": "wasapi_input_capture", "settings": {},
          "filters": [
            { "id": "noise_suppress_filter_v2", "settings": { "method": "speex" } },
            { "name": "Suppress", "id": "noise_suppress_filter", "enabled": false },
            { "name": "Delay", "id": "async_delay_filter" }
          ] },
        { "id": "pulse_input_capture" }
      ],
      "aux-audio": [ { "name": "Desktop", "id": "wasapi_output_capture" } ]
    }"#;
    let sources = parse_scene_collection(json).unwrap();
    assert_eq!(sources.len(), 1);
    let mic = &sources[0];
    assert_eq!(mic.source_name, "Mic");
    assert_eq!(mic.device_id, None);
    assert_eq!(mic.filters.len(), 3);
    assert_eq!(mic.filters[0].name, "Unnamed");
    assert_eq!(mic.filters[0].mapped_kind, Some(FilterKind::Rnnoise));
    assert_eq!(mic.filters[1].unsupported_reason, None);
    assert!(!mic.filters[1].enabled);
    assert_eq!(mic.filters[1].settings, "{}");
    assert_eq!(mic.filters[2].mapped_kind, None);
    assert_eq!(
        mic.unsupported,
        vec![
            "Unnamed (OBS method 'speex' is not RNNoise; mapped approximately)".to_string(),
            "Delay (Unsupported: async_delay_filter)".to_string(),
        ]
    );
    assert!(parse_scene_collection("{not json").is_err());
}

#[test]
fn sources_without_a_name_are_not_shown() {
    let nameless = ObsSourceFields {
        id: Some("wasapi_input_capture".into()),
        name: None,
        device_id: None,
        filters: None,
    };
    assert!(preview_source(&nameless).is_none());
}

fn retry_settings(connect_timeout_ms: u64) -> RetrySettings {
    RetrySettings {
        automatic_retries: true,
        additional_retries: 3,
        connect_timeout_ms,
        request_timeout_ms: 10_000,
        initial_retry_delay_ms: 500,
        max_retry_delay_ms: 3_000,
        total_operation_timeout_ms: 60_000,
    }
}

#[test]
fn oldest_settings_run_every_migration() {
    let fields = MigratedFields {
        config_revision: None,
        retention: Some("30d".into()),
        active_preset_id: Some("stt-optimized".into()),
        preset_ids: vec!["stt-optimized".into()],
        retry: Some(retry_settings(2_000)),
        insertion_mode: Some("sendinput".into()),
    };
    let plan = migrate_settings_fields(fields, false);
    assert!(plan.backup && plan.save && plan.write_revision && plan.add_fast_preset);
    assert_eq!(plan.fields.config_revision, Some(SETTINGS_REVISION as u64));
    assert_eq!(plan.fields.retention.as_deref(), Some("3d"));
    assert_eq!(plan.fields.active_preset_id.as_deref(), Some("stt-fast"));
    assert_eq!(plan.fields.insertion_mode.as_deref(), Some("unicode"));
    let retry = plan.fields.retry.unwrap();
    assert_eq!(retry.request_timeout_ms, 20_000);
    assert_eq!(retry.total_operation_timeout_ms, 720_000);
    assert_eq!(retry.connect_timeout_ms, 8_000);
}

#[test]
fn current_settings_only_get_the_connect_floor() {
    let fields = MigratedFields {
        config_revision: Some(SETTINGS_REVISION as u64),
        retention: Some("30d".into()),
        active_preset_id: Some("stt-fast".into()),
        preset_ids: vec![],
        retry: Some(retry_settings(2_000)),
        insertion_mode: Some("auto".into()),
    };
    let plan = migrate_settings_fields(fields.clone(), true);
    assert!(!plan.backup && !plan.write_revision && !plan.add_fast_preset);
    assert!(plan.save);
    assert_eq!(plan.fields.retention.as_deref(), Some("30d"));
    assert_eq!(plan.fields.active_preset_id.as_deref(), Some("stt-fast"));
    assert_eq!(plan.fields.insertion_mode.as_deref(), Some("auto"));
    assert_eq!(plan.fields.retry.unwrap().connect_timeout_ms, 8_000);
    let mut settled = fields;
    settled.retry = Some(retry_settings(9_000));
    assert!(!migrate_settings_fields(settled, true).save);
}

#[test]
fn processing_needs_the_row_and_its_raw_file() {
    assert_eq!(
        processing_source(None),
        Err(AppError::StorageFailed("recording missing".into()))
    );
    assert_eq!(
        processing_source(Some(&row(None, Some("r1.processed.wav")))),
        Err(AppError::StorageFailed("raw missing".into()))
    );
    assert_eq!(
        processing_source(Some(&row(Some("r1.raw.wav"), None))),
        Ok("r1.raw.wav".to_string())
    );
    assert_eq!(processing_gate(false, 4, 4), Ok(()));
    assert_eq!(processing_gate(true, 4, 4), Err(AppError::Cancelled));
    assert_eq!(processing_gate(false, 4, 5), Err(AppError::Cancelled));
}

#[test]
fn attempt_reply_splits_on_status() {
    let ok = reply_outcome(200, None, r#"{"text":"hi"}"#, None, "m").unwrap();
    assert_eq!(ok.text, "hi");
    let limited = reply_outcome(429, Some(2_000), "slow down", None, "m").unwrap_err();
    assert_eq!(limited.error, AppError::RateLimited);
    assert_eq!(limited.class, RetryClass::Retryable);
    assert_eq!(limited.http_status, Some(429));
    assert_eq!(limited.retry_after_ms, Some(2_000));
    let missing = reply_outcome(404, None, "model not found", None, "m").unwrap_err();
    assert_eq!(missing.class, RetryClass::Terminal);
    assert!(matches!(missing.error, AppError::InvalidModel(_)));
}

#[test]
fn imported_order_keeps_mapped_filters_and_closes_with_a_limiter() {
    let json = r#"{"sources":[{"name":"Mic","id":"wasapi_input_capture","filters":[
        {"name":"NS","id":"noise_suppress_filter"},
        {"name":"EQ","id":"basic_eq_filter"},
        {"name":"Comp","id":"compressor_filter","enabled":false}
    ]}]}"#;
    let preview = &parse_scene_collection(json).unwrap()[0];
    let order = imported_order(preview);
    let view: Vec<(String, FilterKind, bool)> =
        order.iter().map(|s| (s.id.clone(), s.kind, s.enabled)).collect();
    assert_eq!(
        view,
        vec![
            ("NS".to_string(), FilterKind::Rnnoise, true),
            ("Comp".to_string(), FilterKind::Compressor, false),
            ("limiter".to_string(), FilterKind::Limiter, true),
        ]
    );
    let with_limiter = r#"{"sources":[{"name":"Mic","id":"wasapi_input_capture","filters":[
        {"name":"Lim","id":"limiter_filter"}]}]}"#;
    let preview = &parse_scene_collection(with_limiter).unwrap()[0];
    assert_eq!(imported_order(preview).len(), 1);
}
