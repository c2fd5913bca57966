use voxely::error::AppError;
use voxely::history::repository::{RecordingRecord, RecordingStatus};
use voxely::history::retention::{
    delete_all_result, evict_next, evict_record, evict_start, expired_by_age, orphan_files,
    retention_cutoff_ms, sweep_next, sweep_record, sweep_start, DeleteAllResult, Retention,
    DAY_MS,
};

/// A store that answers each deletion from a script (`Ok(true)` once the
/// script runs out) and records what it was asked.
#[derive(Default)]
struct ScriptedStore {
    script: Vec<Result<bool, AppError>>,
    asked: Vec<String>,
}

impl ScriptedStore {
    fn delete_recording(&mut self, id: &str) -> Result<bool, AppError> {
        self.asked.push(id.to_string());
        if self.script.is_empty() {
            Ok(true)
        } else {
            self.script.remove(0)
        }
    }
}

fn ids(list: &[&str]) -> Vec<String> {
    list.iter().map(|s| s.to_string()).collect()
}

/// Runs a deletion pass, carrying out each deletion it asks for.
fn sweep(store: &mut ScriptedStore, ids: &[String], protected: &[String]) -> DeleteAllResult {
    let mut st = sweep_start();
    while let Some(id) = sweep_next(ids, protected, &mut st) {
        let answer = store.delete_recording(&id);
        sweep_record(ids, protected, &mut st, &answer);
    }
    delete_all_result(ids, protected, st)
}

/// Runs a storage-cap pass, carrying out each deletion it asks for.
fn evict(
    store: &mut ScriptedStore,
    oldest_first: &[String],
    sizes: &[u64],
    protected: &[String],
    limit: u64,
    total: u64,
) -> Vec<String> {
    let mut st = evict_start(total);
    while let Some(id) = evict_next(oldest_first, sizes, protected, limit, total, &mut st) {
        let answer = store.delete_recording(&id);
        evict_record(oldest_first, sizes, protected, limit, total, &mut st, &answer);
    }
    st.deleted
}

#[test]
fn protected_id_survives_retention() {
    let mut store = ScriptedStore::default();
    let expired = ids(&["rec-old"]);
    let protected = ids(&["rec-old"]);
    let result = sweep(&mut store, &expired, &protected);
    assert!(result.deleted.is_empty());
    assert!(store.asked.is_empty());
}

#[test]
fn expiry_keeps_going_after_a_failure() {
    let mut store = ScriptedStore {
        script: vec![
            Err(AppError::StorageFailed("locked".into())),
            Ok(false),
            Ok(true),
        ],
        ..ScriptedStore::default()
    };
    let expired = ids(&["a", "b", "keep", "c", "d"]);
    let protected = ids(&["keep"]);
    let result = sweep(&mut store, &expired, &protected);
    assert_eq!(store.asked, ids(&["a", "b", "c", "d"]));
    assert_eq!(result.deleted, ids(&["c", "d"]));
}

#[test]
fn delete_all_splits_deleted_and_failed() {
    let mut store = ScriptedStore {
        script: vec![Ok(true), Err(AppError::StorageFailed("x".into())), Ok(false)],
        ..ScriptedStore::default()
    };
    let all = ids(&["a", "live", "b", "c", "d"]);
    let protected = ids(&["live"]);
    let result = sweep(&mut store, &all, &protected);
    assert_eq!(result.deleted, ids(&["a", "d"]));
    assert_eq!(result.failed, ids(&["live", "b", "c"]));
}

#[test]
fn eviction_deletes_oldest_until_under_cap() {
    let mut store = ScriptedStore::default();
    let oldest_first = ids(&["a", "live", "b", "c", "d"]);
    let sizes = vec![400, 1_000, 300, 200, 100];
    let protected = ids(&["live"]);
    let deleted = evict(&mut store, &oldest_first, &sizes, &protected, 1_300, 2_000);
    assert_eq!(deleted, ids(&["a", "b"]));
    assert_eq!(store.asked, ids(&["a", "b"]));
}

#[test]
fn eviction_stops_at_a_failed_delete() {
    let mut store = ScriptedStore {
        script: vec![Ok(false), Err(AppError::StorageFailed("busy".into()))],
        ..ScriptedStore::default()
    };
    let oldest_first = ids(&["a", "b", "c"]);
    let sizes = vec![100, 100, 100];
    let deleted = evict(&mut store, &oldest_first, &sizes, &[], 0, 300);
    assert!(deleted.is_empty());
    assert_eq!(store.asked, ids(&["a", "b"]));
}

#[test]
fn eviction_does_nothing_within_the_cap() {
    let mut store = ScriptedStore::default();
    let oldest_first = ids(&["a", "b"]);
    let deleted = evict(&mut store, &oldest_first, &[10, 10], &[], 100, 20);
    assert!(deleted.is_empty());
    assert!(store.asked.is_empty());
}

#[test]
fn cleanup_listing_removes_only_orphans() {
    let listing = ids(&[
        "filter-sample.wav",
        "filter-preview.wav",
        "model-compare.2.stt.wav",
        "orphan.wav",
        "h.db",
    ]);
    let removed = orphan_files(&listing, &[], &[]);
    assert_eq!(removed, ids(&["orphan.wav"]));
}

#[test]
fn cleanup_removes_temporaries_but_not_referenced_audio() {
    let listing = ids(&["1.raw.wav", "1.raw.wav.tmp", "2.processed.wav", "busy.wav.tmp"]);
    let kept = ids(&["1.raw.wav"]);
    let protected = ids(&["busy.wav.tmp"]);
    let removed = orphan_files(&listing, &kept, &protected);
    assert_eq!(removed, ids(&["1.raw.wav.tmp", "2.processed.wav"]));
}

fn aged(id: &str, created_at_ms: i64) -> RecordingRecord {
    RecordingRecord {
        id: id.to_string(),
        created_at_ms,
        updated_at_ms: created_at_ms,
        duration_ms: 0,
        raw_audio_path: None,
        processed_audio_path: None,
        transcript: None,
        status: RecordingStatus::Completed,
        provider: "openrouter".to_string(),
        model: "m".to_string(),
        attempt_count: 1,
        last_error_code: None,
        last_error_message: None,
        request_started_at_ms: None,
        completed_at_ms: None,
        usage_json: None,
        generation_id: None,
        latency_ms: None,
    }
}

#[test]
fn age_cutoff_expires_only_older_recordings() {
    let now = 100 * DAY_MS;
    assert_eq!(retention_cutoff_ms(Retention::Days(7), now), Some(93 * DAY_MS));
    assert_eq!(retention_cutoff_ms(Retention::Forever, now), None);
    let cutoff = retention_cutoff_ms(Retention::Days(30), now).unwrap();
    let records = vec![
        aged("old", now - 31 * DAY_MS),
        aged("edge", cutoff),
        aged("new", now - DAY_MS),
        aged("older", now - 90 * DAY_MS),
    ];
    assert_eq!(
        expired_by_age(&records, cutoff),
        vec!["old".to_string(), "older".to_string()]
    );
}
