use voxely::settings::RetrySettings;
use voxely::updates::coordinator::{
    delay_after, manual_copy, plan_to_outcome, SilentUpdateOutcome, UpdatePlan,
};
use voxely::updates::policy::{install_allowed, is_newer_stable, normalize_version, parse_tag};
use voxely::updates::{
    background_poll_delay_secs, should_poll_updates, update_check_retry_delay,
    update_error_retryable, UpdateCode, UPDATE_CHECK_ATTEMPTS,
};

#[test]
fn newer_same_older_and_prerelease() {
    assert!(is_newer_stable("0.1.0", "v0.1.1", false));
    assert!(!is_newer_stable("0.1.1", "v0.1.1", false));
    assert!(!is_newer_stable("0.1.1", "v0.1.0", false));
    assert!(!is_newer_stable("0.1.0", "v0.2.0", true));
    assert!(!is_newer_stable("0.1.0", "1.0.0-beta.1", false));
}

#[test]
fn busy_dictation_defers_install() {
    assert!(install_allowed(false));
    assert!(!install_allowed(true));
}

#[test]
fn tags_parse_like_str_parse() {
    assert_eq!(parse_tag(" V1.2.3+build.7 "), Some((1, 2, 3)));
    assert_eq!(parse_tag("1.2"), None);
    assert_eq!(parse_tag("1.2.3.4"), Some((1, 2, 3)));
    assert_eq!(parse_tag("1.+2.3"), None);
    assert_eq!(parse_tag("1.2.x"), None);
    assert_eq!(parse_tag("4294967296.0.0"), None);
    assert_eq!(normalize_version(" v0.3.1+abc"), "0.3.1");
}

#[test]
fn local_debug_does_not_poll_updates() {
    assert!(!should_poll_updates(true, true));
    assert!(should_poll_updates(false, true));
    assert!(!should_poll_updates(false, false));
}

#[test]
fn github_network_blip_is_retryable() {
    assert!(update_error_retryable(
        "error sending request for url (https://github.com/AryaPaw/voxely/releases/latest/download/latest.json)"
    ));
    assert!(update_error_retryable(
        "update endpoint did not respond with a successful status code"
    ));
    assert!(!update_error_retryable("invalid signature"));
}

#[test]
fn update_codes_have_labels() {
    assert_eq!(UpdateCode::UpToDate.as_str(), "none");
    assert_eq!(UpdateCode::Deferred.as_str(), "deferred");
}

#[test]
fn english_copy_for_no_update() {
    assert_eq!(
        manual_copy(SilentUpdateOutcome::NoUpdate, "en"),
        "You already have the latest version."
    );
    assert_eq!(
        manual_copy(SilentUpdateOutcome::NoUpdate, "ru"),
        "Уже установлена последняя версия."
    );
}

#[test]
fn failed_passes_wait_longer() {
    assert_eq!(delay_after(SilentUpdateOutcome::Failed), 120);
    assert_eq!(delay_after(SilentUpdateOutcome::NoUpdate), 15);
}

#[test]
fn retry_rejects_too_many_attempts() {
    let mut s = RetrySettings::default();
    s.additional_retries = 9;
    assert!(s.validate().is_err());
    s = RetrySettings::default();
    s.connect_timeout_ms = 4_994;
    assert!(s.validate().is_err());
}

#[test]
fn default_retry_settings_are_valid() {
    let s = RetrySettings::default();
    assert!(s.validate().is_ok());
    assert_eq!(s.to_policy().max_attempts(), 4);
}

#[test]
fn plans_that_end_a_pass_map_to_outcomes() {
    assert_eq!(plan_to_outcome(&UpdatePlan::Skip), SilentUpdateOutcome::Skipped);
    assert_eq!(plan_to_outcome(&UpdatePlan::Offline), SilentUpdateOutcome::Offline);
    assert_eq!(plan_to_outcome(&UpdatePlan::NoUpdate), SilentUpdateOutcome::NoUpdate);
    assert_eq!(plan_to_outcome(&UpdatePlan::Failed), SilentUpdateOutcome::Failed);
    let download = UpdatePlan::Download {
        url: "https://github.com/AryaPaw/voxely/releases/download/v0.1.1/x.exe".into(),
        file_name: "x.exe".into(),
        expected_sha256: "a".repeat(64),
    };
    assert_eq!(plan_to_outcome(&download), SilentUpdateOutcome::Failed);
}

#[test]
fn failed_update_checks_retry_twice_with_growing_pauses() {
    let blip = "error sending request for url";
    assert_eq!(UPDATE_CHECK_ATTEMPTS, 3);
    assert_eq!(update_check_retry_delay(1, blip), Some(400));
    assert_eq!(update_check_retry_delay(2, blip), Some(800));
    assert_eq!(update_check_retry_delay(3, blip), None);
    assert_eq!(update_check_retry_delay(1, "invalid signature"), None);
}

#[test]
fn background_loop_pacing() {
    assert_eq!(background_poll_delay_secs(Some(UpdateCode::Installed)), None);
    assert_eq!(background_poll_delay_secs(Some(UpdateCode::UpToDate)), Some(6 * 60 * 60));
    assert_eq!(background_poll_delay_secs(Some(UpdateCode::Failed)), Some(120));
    assert_eq!(background_poll_delay_secs(None), Some(120));
}
