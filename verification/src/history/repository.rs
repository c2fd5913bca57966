//! What the history store decides without touching the database: how a
//! recording's status is stored, which of its audio files serve retry and
//! playback, and how a page of results is cut.
use vstd::prelude::*;

use crate::error::AppError;
use crate::text::{chars_of, chars_are, contains, contains_str, owned, string_from_chars, trim, trim_of};

verus! {

/// Where a recording stands.
#[derive(Debug, Clone, PartialEq, Eq, Structural)]
pub enum RecordingStatus {
    Processing,
    Completed,
    Failed,
    Interrupted,
}

/// The word a status is stored as.
pub open spec fn status_label(status: RecordingStatus) -> Seq<char> {
    match status {
        RecordingStatus::Processing => "processing"@,
        RecordingStatus::Completed => "completed"@,
        RecordingStatus::Failed => "failed"@,
        RecordingStatus::Interrupted => "interrupted"@,
    }
}

/// The status a stored word reads as; an unknown word reads as still
/// processing.
pub open spec fn status_of(value: Seq<char>) -> RecordingStatus {
    if value == "completed"@ {
        RecordingStatus::Completed
    } else if value == "failed"@ {
        RecordingStatus::Failed
    } else if value == "interrupted"@ {
        RecordingStatus::Interrupted
    } else {
        RecordingStatus::Processing
    }
}

/// The word `status` is stored as.
pub fn status_str(status: &RecordingStatus) -> (r: &'static str)
    ensures
        r@ == status_label(*status),
{
    match status {
        RecordingStatus::Processing => "processing",
        RecordingStatus::Completed => "completed",
        RecordingStatus::Failed => "failed",
        RecordingStatus::Interrupted => "interrupted",
    }
}

/// The status a stored word reads as.
pub fn parse_status(value: &str) -> (r: RecordingStatus)
    ensures
        r == status_of(value@),
{
    let v = chars_of(value);
    if chars_are(v.as_slice(), "completed") {
        RecordingStatus::Completed
    } else if chars_are(v.as_slice(), "failed") {
        RecordingStatus::Failed
    } else if chars_are(v.as_slice(), "interrupted") {
        RecordingStatus::Interrupted
    } else {
        RecordingStatus::Processing
    }
}

/// A status read back from the word it was stored as is the status that
/// was stored.
pub proof fn law_status_round_trip(status: RecordingStatus)
    ensures
        status_of(status_label(status)) == status,
{
    reveal_strlit("processing");
    reveal_strlit("completed");
    reveal_strlit("failed");
    reveal_strlit("interrupted");
    assert("processing"@.len() == 10);
    assert("completed"@.len() == 9);
    assert("failed"@.len() == 6);
    assert("interrupted"@.len() == 11);
}

/// A history entry, with its times as milliseconds since the Unix epoch
/// (the provider's reported cost, a float, is not kept here).
#[derive(Debug, Clone, PartialEq)]
pub struct RecordingRecord {
    pub id: String,
    pub created_at_ms: i64,
    pub updated_at_ms: i64,
    pub duration_ms: i64,
    pub raw_audio_path: Option<String>,
    pub processed_audio_path: Option<String>,
    pub transcript: Option<String>,
    pub status: RecordingStatus,
    pub provider: String,
    pub model: String,
    pub attempt_count: i64,
    pub last_error_code: Option<String>,
    pub last_error_message: Option<String>,
    pub request_started_at_ms: Option<i64>,
    pub completed_at_ms: Option<i64>,
    pub usage_json: Option<String>,
    pub generation_id: Option<String>,
    pub latency_ms: Option<i64>,
}

/// The audio files a recording refers to, by name inside the audio
/// directory.
#[derive(Debug, Clone, PartialEq)]
pub struct RecordingFiles {
    pub raw_audio_path: Option<String>,
    pub processed_audio_path: Option<String>,
}

/// A recording can be sent again while either of its audio files is kept.
pub fn can_retry_from_history(rec: &RecordingFiles) -> (r: bool)
    ensures
        r == (rec.raw_audio_path is Some || rec.processed_audio_path is Some),
{
    rec.raw_audio_path.is_some() || rec.processed_audio_path.is_some()
}

/// The file to listen to: the processed audio, else the raw capture.
pub fn history_listen_name(rec: &RecordingFiles) -> (r: Option<&String>)
    ensures
        r is Some == (rec.processed_audio_path is Some || rec.raw_audio_path is Some),
        r matches Some(name) ==> if rec.processed_audio_path is Some {
            *name == rec.processed_audio_path->0
        } else {
            *name == rec.raw_audio_path->0
        },
{
    match &rec.processed_audio_path {
        Some(p) => Some(p),
        None => match &rec.raw_audio_path {
            Some(p) => Some(p),
            None => None,
        },
    }
}

/// The file to play: the processed audio, else the raw capture where
/// original recordings are kept.
pub fn history_play_name(rec: &RecordingFiles, keep_original: bool) -> (r: Option<&String>)
    ensures
        r is Some == (rec.processed_audio_path is Some || (keep_original
            && rec.raw_audio_path is Some)),
        r matches Some(name) ==> if rec.processed_audio_path is Some {
            *name == rec.processed_audio_path->0
        } else {
            *name == rec.raw_audio_path->0
        },
{
    match &rec.processed_audio_path {
        Some(p) => Some(p),
        None => {
            if keep_original {
                match &rec.raw_audio_path {
                    Some(p) => Some(p),
                    None => None,
                }
            } else {
                None
            }
        },
    }
}

/// The page size a request gets: its limit brought into 1..=200.
pub fn page_limit(limit: i64) -> (r: i64)
    ensures
        r == if limit < 1 {
            1
        } else if limit > 200 {
            200
        } else {
            limit
        },
{
    if limit < 1 {
        1
    } else if limit > 200 {
        200
    } else {
        limit
    }
}

/// The search a query asks for: the query trimmed, or none where nothing
/// is left of it.
pub open spec fn search_of(query: Option<Seq<char>>) -> Option<Seq<char>> {
    match query {
        Some(q) => if trim(q).len() == 0 {
            None
        } else {
            Some(trim(q))
        },
        None => None,
    }
}

/// The search term of a history query.
pub fn search_term(query: Option<&str>) -> (r: Option<String>)
    ensures
        match query {
            Some(q) => match search_of(Some(q@)) {
                Some(t) => r matches Some(s) && s@ == t,
                None => r is None,
            },
            None => r is None,
        },
{
    match query {
        Some(q) => {
            let t = trim_of(q);
            if t.len() == 0 {
                None
            } else {
                Some(string_from_chars(t.as_slice()))
            }
        },
        None => None,
    }
}

/// How a page is cut from the rows fetched for it, where one row more than
/// the page size is fetched: how many rows the page keeps, and whether
/// more follow (the last kept row is then the cursor of the next page).
pub fn page_window(fetched: usize, limit: i64) -> (r: (usize, bool))
    requires
        0 <= limit <= usize::MAX,
    ensures
        r.1 == (fetched > limit),
        r.0 == if r.1 {
            limit as usize
        } else {
            fetched
        },
{
    if fetched as u64 > limit as u64 {
        (limit as usize, true)
    } else {
        (fetched, false)
    }
}

/// One page of the history, newest first.
#[derive(Debug, Clone, PartialEq)]
pub struct HistoryPage {
    pub items: Vec<RecordingRecord>,
    pub next_cursor: Option<String>,
    pub total: i64,
    pub has_more: bool,
}

/// The page size `page_limit` brings a limit to.
pub open spec fn clamped_limit(limit: i64) -> int {
    if limit < 1 {
        1
    } else if limit > 200 {
        200
    } else {
        limit as int
    }
}

/// Assembles a page from the rows fetched for it (one more than the page
/// size, newest first) and the number of matching recordings. A cursor
/// naming a recording that no longer exists gives an empty, final page.
/// Otherwise the page keeps at most the page size of rows; more follow when
/// more were fetched, and the next page then starts after the last kept
/// row, whose id is the cursor.
pub fn history_page(anchor_missing: bool, rows: Vec<RecordingRecord>, limit: i64, total: i64) -> (r:
    HistoryPage)
    ensures
        r.total == total,
        anchor_missing ==> r.items@.len() == 0 && r.next_cursor is None && !r.has_more,
        !anchor_missing ==> {
            let m = clamped_limit(limit);
            &&& r.has_more == (rows@.len() > m)
            &&& r.items@ == if r.has_more {
                rows@.take(m)
            } else {
                rows@
            }
            &&& if r.has_more {
                r.next_cursor matches Some(c) && c@ == rows@[m - 1].id@
            } else {
                r.next_cursor is None
            }
        },
{
    if anchor_missing {
        return HistoryPage { items: Vec::new(), next_cursor: None, total, has_more: false };
    }
    let m = page_limit(limit);
    let (keep, has_more) = page_window(rows.len(), m);
    let mut items = rows;
    if has_more {
        items.truncate(keep);
        let last = &items[keep - 1];
        let cursor = last.id.clone();
        proof {
            assert(items@ =~= rows@.take(m as int));
        }
        HistoryPage { items, next_cursor: Some(cursor), total, has_more }
    } else {
        HistoryPage { items, next_cursor: None, total, has_more }
    }
}

/// Whether a stored audio file name may be looked up under the audio
/// directory: it must not climb out with `..` nor be an absolute path
/// (`absolute` says whether the platform reads it as one).
pub fn check_audio_name(name: &str, absolute: bool) -> (r: Result<(), AppError>)
    ensures
        r is Ok <==> !contains(name@, ".."@) && !absolute,
        r matches Err(e) ==> e matches AppError::StorageFailed(m) && m@ == "invalid audio path"@,
{
    let c = chars_of(name);
    if contains_str(c.as_slice(), "..") || absolute {
        Err(AppError::StorageFailed(owned("invalid audio path")))
    } else {
        Ok(())
    }
}

/// The playable location of an audio file, once its real path is known:
/// refused when the real path left the audio directory, none when the file
/// is gone, else the real path.
pub fn contained_audio_path(inside_root: bool, exists: bool, canonical: String) -> (r: Result<
    Option<String>,
    AppError,
>)
    ensures
        !inside_root ==> (r matches Err(AppError::StorageFailed(m)) && m@ == "audio path escaped"@),
        inside_root && !exists ==> r == Ok::<Option<String>, AppError>(None),
        inside_root && exists ==> r == Ok::<Option<String>, AppError>(Some(canonical)),
{
    if !inside_root {
        return Err(AppError::StorageFailed(owned("audio path escaped")));
    }
    if !exists {
        return Ok(None);
    }
    Ok(Some(canonical))
}

/// The audio file to play for a recording looked up by id: an unknown id is
/// refused; a recording with nothing playable has no file; otherwise the
/// name `history_play_name` picks (to be checked by `check_audio_name`
/// and then `contained_audio_path`).
pub fn audio_file_to_play(row: Option<&RecordingFiles>, keep_original: bool) -> (r: Result<
    Option<String>,
    AppError,
>)
    ensures
        row is None ==> (r matches Err(AppError::StorageFailed(m)) && m@ == "not found"@),
        row matches Some(rec) ==> match r {
            Ok(None) => !(rec.processed_audio_path is Some || (keep_original
                && rec.raw_audio_path is Some)),
            Ok(Some(name)) => if rec.processed_audio_path is Some {
                name@ == rec.processed_audio_path->0@
            } else {
                keep_original && rec.raw_audio_path is Some && name@ == rec.raw_audio_path->0@
            },
            Err(_) => false,
        },
{
    let rec = match row {
        Some(rec) => rec,
        None => {
            return Err(AppError::StorageFailed(owned("not found")));
        },
    };
    match history_play_name(rec, keep_original) {
        Some(name) => Ok(Some(string_from_chars(chars_of(name.as_str()).as_slice()))),
        None => Ok(None),
    }
}

} // verus!
