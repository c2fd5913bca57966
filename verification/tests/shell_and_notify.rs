use voxely::app::autostart_run::{extra_run_value_names, launches_voxely, should_delete_run_value};
use voxely::app::compare::{
    compare_listen_name, compare_raw_name, compare_retry_policy, compare_start_check,
    compare_stt_name, frozen_stt_name, keep_compare_wav, next_compare_nonce,
    validate_compare_models,
};
use voxely::app::lifecycle::{
    app_display_name, github_page_url, is_perf_data_dir_name, legacy_data_dir_move_needed,
    main_section_from_route, DATA_DIR_NAME, LEGACY_DATA_DIR_NAME,
    runtime_info, runtime_info_with_recovery, should_hide_on_launch, tray_labels, window_title,
    GITHUB_ISSUES_URL, GITHUB_REPO_URL,
};
use voxely::app::locale::resolved_ui_locale;
use voxely::app::operations::{protected_audio_names, protected_recording_ids};
use voxely::error::AppError;
use voxely::logging::{
    legacy_log_target, log_filter_directive, LOG_PREFIX, LOG_SUFFIX, MAX_LOG_FILES,
};
use voxely::notify::{error_toast, preview_body, should_toast_error, WINDOWS_APP_USER_MODEL_ID};
use voxely::transcription::retry::RetryPolicy;

#[test]
fn detects_voxely_exe_in_quoted_and_bare_commands() {
    assert!(launches_voxely(
        r#""C:\Users\AryaPaw\Documents\GitHub\voxely\src-tauri\target\debug\voxely.exe" --autostart"#
    ));
    assert!(launches_voxely(
        r"C:\Users\AryaPaw\Documents\GitHub\voxely\src-tauri\target\debug\voxely.exe --autostart"
    ));
    assert!(!launches_voxely(r"C:\Program Files\NetLights\NetLights.exe"));
}

#[test]
fn keeps_the_plugin_run_value_and_drops_stale_names() {
    assert!(!should_delete_run_value(
        "Voxely",
        r"C:\app\voxely.exe --autostart",
        "Voxely"
    ));
    assert!(should_delete_run_value(
        "com.voxely.desktop",
        r#""C:\app\voxely.exe" --autostart"#,
        "Voxely"
    ));
    let extra = extra_run_value_names(
        &[
            ("com.voxely.desktop", r#""C:\app\voxely.exe" --autostart"#),
            ("Voxely", r"C:\app\voxely.exe --autostart"),
            ("Docker Desktop", r"C:\Program Files\Docker\Docker.exe"),
        ],
        "Voxely",
    );
    assert_eq!(extra, vec!["com.voxely.desktop".to_string()]);
}

#[test]
fn voxely_exe_must_be_a_whole_part() {
    assert!(launches_voxely("VOXELY.EXE"));
    assert!(!launches_voxely(r"C:\app\myvoxely.exe"));
    assert!(!launches_voxely(r"C:\app\voxely.exe.bak"));
}

#[test]
fn github_urls_cover_repo_and_issues() {
    assert_eq!(GITHUB_REPO_URL, "https://github.com/AryaPaw/voxely");
    assert_eq!(github_page_url(Some("issues")), GITHUB_ISSUES_URL);
    assert_eq!(github_page_url(None), GITHUB_REPO_URL);
}

#[test]
fn tray_labels_follow_locale() {
    assert_eq!(tray_labels("en"), ("Open", "Quit"));
    assert_eq!(tray_labels("ru"), ("Открыть", "Выход"));
}

#[test]
fn window_title_marks_local_build_not_sandbox() {
    assert_eq!(window_title("ru", true), "Voxely (локальная версия)");
    assert_eq!(window_title("RU-ru", true), "Voxely (локальная версия)");
    assert_eq!(window_title("en", true), "Voxely (local)");
    assert_eq!(window_title("ru", false), "Voxely");
    assert_eq!(window_title("en", false), "Voxely");
    assert_eq!(app_display_name("en"), "Voxely");
    assert_eq!(app_display_name("ru"), "Voxely");
    for local_build in [true, false] {
        let info = runtime_info(local_build, "2026-09-13".to_string());
        assert_eq!(info.local_build, local_build);
        let day = &info.build_date;
        assert_eq!(day.len(), 10);
        assert!(day.as_bytes()[4] == b'-' && day.as_bytes()[7] == b'-');
    }
}

#[test]
fn autostart_hides_main_window() {
    assert!(should_hide_on_launch(&["voxely.exe", "--autostart"]));
    assert!(should_hide_on_launch(&[
        r#"C:\Users\AryaPaw\AppData\Local\Voxely\voxely.exe --autostart"#
    ]));
    assert!(!should_hide_on_launch(&["voxely.exe"]));
    assert!(!should_hide_on_launch(&["voxely.exe", "--open"]));
    assert_eq!(main_section_from_route("/"), "history");
    assert_eq!(main_section_from_route("history"), "history");
    assert_eq!(main_section_from_route("/history"), "history");
}

#[test]
fn second_autostart_instance_does_not_request_focus() {
    assert!(should_hide_on_launch(&[
        "C:\\Program Files\\Voxely\\voxely.exe",
        "--autostart"
    ]));
}

#[test]
fn route_keeps_named_sections() {
    assert_eq!(main_section_from_route("  //settings "), "settings");
    assert_eq!(main_section_from_route(""), "history");
}

#[test]
fn cancelled_is_not_a_system_toast() {
    assert!(!should_toast_error(&AppError::Cancelled));
    assert!(error_toast("Voxely", true, &AppError::Cancelled).is_none());
}

#[test]
fn dictation_errors_toast_when_enabled() {
    let toast = error_toast("Voxely", true, &AppError::ProviderUnavailable);
    assert_eq!(
        toast,
        Some(("Voxely", AppError::ProviderUnavailable.user_message()))
    );
    assert!(error_toast("Voxely", false, &AppError::InvalidApiKey).is_none());
    assert!(should_toast_error(&AppError::TextInsertionFailed(
        "focus".into()
    )));
    assert!(should_toast_error(&AppError::Interrupted));
}

#[test]
fn debug_preview_is_a_real_error_toast() {
    assert_eq!(preview_body("en"), "Test error notification");
    assert_eq!(preview_body("ru"), "Тестовое уведомление об ошибке");
}

#[test]
fn windows_toast_uses_voxely_app_id() {
    assert_eq!(WINDOWS_APP_USER_MODEL_ID, "com.voxely.desktop");
    assert!(!WINDOWS_APP_USER_MODEL_ID
        .to_ascii_lowercase()
        .contains("powershell"));
}

#[test]
fn validate_compare_models_bounds() {
    assert!(validate_compare_models(&["a".into()]).is_err());
    assert!(validate_compare_models(&["a".into(), "a".into()]).is_err());
    assert!(validate_compare_models(&[
        "a".into(),
        "b".into(),
        "c".into(),
        "d".into(),
        "e".into()
    ])
    .is_err());
    assert_eq!(
        validate_compare_models(&[" a ".into(), "b".into()]).unwrap(),
        vec!["a", "b"]
    );
}

#[test]
fn compare_errors_name_the_rule() {
    assert_eq!(
        validate_compare_models(&["a".into(), " ".into()]).unwrap_err(),
        AppError::RequestValidationFailed("compare needs 2-4 models".into())
    );
    assert_eq!(
        validate_compare_models(&["a".into(), " a".into()]).unwrap_err(),
        AppError::RequestValidationFailed("compare models must be unique".into())
    );
}

#[test]
fn keep_list_covers_compare_and_filter() {
    assert!(keep_compare_wav("filter-sample.wav"));
    assert!(keep_compare_wav("filter-preview.wav"));
    assert!(keep_compare_wav("model-compare.stt.wav"));
    assert!(keep_compare_wav("model-compare.abc.stt.wav"));
    assert!(!keep_compare_wav("orphan.wav"));
    assert!(keep_compare_wav(&compare_listen_name(9)));
}

#[test]
fn compare_clip_paths_change_across_takes() {
    assert_eq!(compare_listen_name(1), "model-compare.1.listen.wav");
    assert_ne!(compare_listen_name(1), compare_listen_name(2));
    assert_ne!(compare_stt_name(1), compare_stt_name(2));
    assert_ne!(compare_raw_name(1), compare_raw_name(2));
    assert_eq!(compare_raw_name(1234), "model-compare.1234.raw.wav");
}

#[test]
fn runtime_info_reports_build_and_recovery() {
    let info = runtime_info(true, "2025-01-31".to_string());
    assert!(info.local_build);
    assert_eq!(info.build_date, "2025-01-31");
    assert!(!info.settings_recovered);
    let recovered = runtime_info_with_recovery(false, "2025-01-31".to_string(), true);
    assert!(!recovered.local_build);
    assert!(recovered.settings_recovered);
}

#[test]
fn perf_data_dirs_are_named_for_benchmarks() {
    assert!(is_perf_data_dir_name("VoxelyPerf"));
    assert!(is_perf_data_dir_name("VoxelyPerf-run2"));
    assert!(!is_perf_data_dir_name("Voxely"));
    assert!(!is_perf_data_dir_name("VoxelyPerfX"));
}

#[test]
fn comparison_runs_retry_at_most_once() {
    let p = compare_retry_policy(RetryPolicy::default());
    assert_eq!(p.additional_retries, 1);
    assert_eq!(p.total_operation_timeout_ms, 90_000);
    assert_eq!(p.connect_timeout_ms, RetryPolicy::default().connect_timeout_ms);
    let mut none = RetryPolicy::default();
    none.additional_retries = 0;
    assert_eq!(compare_retry_policy(none).additional_retries, 0);
    assert_eq!(frozen_stt_name("r1"), "model-compare.r1.stt.wav");
}

#[test]
fn explicit_english_locale() {
    assert_eq!(resolved_ui_locale("en", "ru_RU.UTF-8"), "en");
    assert_eq!(resolved_ui_locale("ru", ""), "ru");
    assert_eq!(resolved_ui_locale("auto", "RU_ru"), "ru");
    assert_eq!(resolved_ui_locale("auto", "de_DE"), "en");
}

#[test]
fn live_and_tool_audio_is_protected() {
    let names = protected_audio_names(Some("rec"), Some("a.listen.wav"), None, 2, Some("run"));
    for expected in [
        "rec.raw.wav",
        "rec.processed.wav",
        "rec.raw.wav.tmp",
        "rec.wav.tmp",
        "filter-sample.wav",
        "filter-preview.wav",
        "filter-preview-original.wav",
        "a.listen.wav",
        "model-compare.2.listen.wav",
        "model-compare.2.stt.wav",
        "model-compare.2.raw.wav",
        "model-compare.run.stt.wav",
    ] {
        assert!(names.iter().any(|n| n == expected), "{expected}");
    }
    assert_eq!(names.len(), 12);
    assert_eq!(protected_audio_names(None, None, None, 0, None).len(), 3);
    let ids = protected_recording_ids(&["a".to_string()], Some("b"));
    assert_eq!(ids, vec!["a".to_string(), "b".to_string()]);
}

#[test]
fn migrates_dated_extension_to_log_suffix() {
    assert_eq!(
        legacy_log_target("voxely.log.2026-09-13").as_deref(),
        Some("voxely.2026-09-13.log")
    );
    assert_eq!(legacy_log_target("voxely.2026-09-13.log"), None);
    assert_eq!(legacy_log_target("voxely.log.2026-9-130"), None);
    assert_eq!(legacy_log_target("voxely.log.2026_09_13"), None);
    assert_eq!(legacy_log_target("voxely.log.2026-09-1"), None);
    assert_eq!((LOG_PREFIX, LOG_SUFFIX, MAX_LOG_FILES), ("voxely", "log", 14));
    assert_eq!(log_filter_directive(true), "info,voxely_lib=debug");
    assert_eq!(log_filter_directive(false), "warn,voxely_lib=info");
}

#[test]
fn comparison_takes_wait_for_other_work() {
    assert_eq!(
        compare_start_check(true, true, true, true),
        Err(AppError::IllegalTransition("dictation is already running".into()))
    );
    assert_eq!(
        compare_start_check(false, true, false, false),
        Err(AppError::IllegalTransition("filter sample is running".into()))
    );
    assert_eq!(
        compare_start_check(false, false, true, true),
        Err(AppError::IllegalTransition("compare is already recording".into()))
    );
    assert_eq!(
        compare_start_check(false, false, false, true),
        Err(AppError::TranscriptionInProgress)
    );
    assert_eq!(compare_start_check(false, false, false, false), Ok(()));
    assert_eq!(next_compare_nonce(0), 1);
    assert_eq!(next_compare_nonce(7), 8);
    assert_eq!(next_compare_nonce(u64::MAX), u64::MAX);
}

#[test]
fn prefers_voxely_folder_name() {
    assert_eq!(DATA_DIR_NAME, "Voxely");
    assert_eq!(LEGACY_DATA_DIR_NAME, "com.voxely.desktop");
    assert!(legacy_data_dir_move_needed(false, true));
    assert!(!legacy_data_dir_move_needed(true, true));
    assert!(!legacy_data_dir_move_needed(false, false));
}
