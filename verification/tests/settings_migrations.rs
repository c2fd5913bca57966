use voxely::dsp::pipeline::{slot, FilterKind, PresetGraph};
use voxely::error::AppError;
use voxely::settings::{
    active_preset_index, apply_connect_timeout_floor, migrate_factory_defaults, migrate_fast_stt,
    migrate_honest_dsp_and_insert, migrate_long_stt_timeouts, migrate_stock_fast_to_quality,
    migration_steps, next_write_seq, settings_write_is_stale, storage_limit_bytes,
    validate_settings_graph, RetrySettings, SETTINGS_REVISION,
};

fn ids(list: &[&str]) -> Vec<String> {
    list.iter().map(|s| s.to_string()).collect()
}

#[test]
fn migrates_factory_theme_and_retention() {
    let steps = migration_steps(0);
    assert!(steps.factory_defaults && steps.bump_revision);
    let mut retention = "30d".to_string();
    migrate_factory_defaults(&mut retention);
    assert_eq!(retention, "3d");
    let mut active = "stt-fast".to_string();
    migrate_stock_fast_to_quality(&mut active, true);
    assert_eq!(active, "stt-optimized");
    assert_eq!(SETTINGS_REVISION, 5);
}

#[test]
fn migrates_optimized_preset_to_fast() {
    let presets = ids(&["stt-optimized", "obs-imported"]);
    let mut active = "stt-optimized".to_string();
    let add_fast = migrate_fast_stt(&presets, &mut active);
    assert_eq!(active, "stt-fast");
    assert!(add_fast);
}

#[test]
fn fast_preset_is_not_added_twice() {
    let presets = ids(&["stt-fast", "stt-optimized"]);
    let mut active = "obs-imported".to_string();
    assert!(!migrate_fast_stt(&presets, &mut active));
    assert_eq!(active, "obs-imported");
}

#[test]
fn migrates_short_stt_timeouts() {
    let mut retry = RetrySettings::default();
    retry.request_timeout_ms = 12_000;
    retry.total_operation_timeout_ms = 45_000;
    migrate_long_stt_timeouts(&mut retry);
    assert_eq!(retry.request_timeout_ms, 20_000);
    assert_eq!(retry.total_operation_timeout_ms, 12 * 60 * 1000);
    assert!(migration_steps(2).long_stt_timeouts);
    assert!(!migration_steps(3).long_stt_timeouts);
}

#[test]
fn long_timeouts_keep_generous_values() {
    let mut retry = RetrySettings::default();
    retry.request_timeout_ms = 30_000;
    retry.total_operation_timeout_ms = 200_000;
    retry.connect_timeout_ms = 3_000;
    migrate_long_stt_timeouts(&mut retry);
    assert_eq!(retry.request_timeout_ms, 30_000);
    assert_eq!(retry.total_operation_timeout_ms, 200_000);
    assert_eq!(retry.connect_timeout_ms, 8_000);
}

#[test]
fn lifts_sub_eight_second_connect_timeout_on_current_revision() {
    let mut retry = RetrySettings::default();
    retry.connect_timeout_ms = 4_994;
    assert!(apply_connect_timeout_floor(&mut retry));
    assert_eq!(retry.connect_timeout_ms, 8_000);
    assert!(!apply_connect_timeout_floor(&mut retry));
    assert_eq!(retry.connect_timeout_ms, 8_000);
}

#[test]
fn migrates_insert_aliases_to_unicode() {
    let mut mode = "sendinput".to_string();
    migrate_honest_dsp_and_insert(&mut mode);
    assert_eq!(mode, "unicode");
    let mut auto = "auto".to_string();
    migrate_honest_dsp_and_insert(&mut auto);
    assert_eq!(auto, "unicode");
    let mut clipboard = "clipboard".to_string();
    migrate_honest_dsp_and_insert(&mut clipboard);
    assert_eq!(clipboard, "clipboard");
    assert!(migration_steps(3).backup);
}

#[test]
fn revision_5_keeps_custom_fast() {
    let mut active = "stt-fast".to_string();
    migrate_stock_fast_to_quality(&mut active, false);
    assert_eq!(active, "stt-fast");
    let steps = migration_steps(4);
    assert!(steps.stock_fast_to_quality && steps.bump_revision);
    assert!(!steps.backup && !steps.honest_dsp_and_insert && !steps.fast_stt);
}

#[test]
fn current_revision_runs_no_migration() {
    let steps = migration_steps(5);
    assert!(!steps.backup && !steps.factory_defaults && !steps.fast_stt);
    assert!(!steps.long_stt_timeouts && !steps.honest_dsp_and_insert);
    assert!(!steps.stock_fast_to_quality && !steps.bump_revision);
}

#[test]
fn storage_limits_in_bytes() {
    assert_eq!(storage_limit_bytes("500mb"), Some(500 * 1024 * 1024));
    assert_eq!(storage_limit_bytes("1gb"), Some(1024 * 1024 * 1024));
    assert_eq!(storage_limit_bytes("5gb"), Some(5 * 1024 * 1024 * 1024));
    assert_eq!(storage_limit_bytes("unlimited"), None);
}

#[test]
fn active_preset_is_the_first_with_its_id() {
    let presets = ids(&["stt-fast", "stt-optimized", "stt-optimized"]);
    assert_eq!(active_preset_index(&presets, "stt-optimized"), Some(1));
    assert_eq!(active_preset_index(&presets, "gone"), None);
}

fn graph(id: &str, kinds: &[FilterKind]) -> PresetGraph {
    PresetGraph {
        id: id.to_string(),
        order: kinds.iter().map(|k| slot("s", *k, true)).collect(),
    }
}

fn rejected(message: &str) -> Result<(), AppError> {
    Err(AppError::RequestValidationFailed(message.to_string()))
}

#[test]
fn settings_graph_rules() {
    let presets = vec![
        graph("stt-fast", &[FilterKind::HighPass, FilterKind::Gain, FilterKind::Limiter]),
        graph("stt-optimized", &[FilterKind::HighPass, FilterKind::Rnnoise]),
    ];
    assert_eq!(
        validate_settings_graph("openai/gpt-transcribe", "stt-fast", &presets, "unicode"),
        Ok(())
    );
    assert_eq!(
        validate_settings_graph("  ", "stt-fast", &presets, "unicode"),
        rejected("model required")
    );
    assert_eq!(
        validate_settings_graph("m", "gone", &presets, "unicode"),
        rejected("active preset is missing")
    );
    let doubled = vec![graph("x", &[FilterKind::Gain, FilterKind::Limiter, FilterKind::Gain])];
    assert_eq!(
        validate_settings_graph("m", "x", &doubled, "clipboard"),
        rejected("preset has duplicate filter kinds")
    );
    assert_eq!(
        validate_settings_graph("m", "stt-fast", &presets, "sendinput"),
        rejected("insertion mode must be unicode or clipboard")
    );
}

#[test]
fn stale_settings_writes_are_ignored() {
    assert!(settings_write_is_stale(3, 5));
    assert!(!settings_write_is_stale(0, 5));
    assert!(!settings_write_is_stale(5, 5));
    assert_eq!(next_write_seq(5), 6);
    assert_eq!(next_write_seq(u64::MAX), u64::MAX);
}
