//! Decisions of the dictation session that do not touch the window system.
use vstd::prelude::*;

use crate::app::machine::{cancellable, next_state, SessionEvent, SessionState, StateView};
use crate::transcription::openrouter::{SttProgress, TranscriptionSuccess};
use crate::error::{error_code, error_message, AppError};
use crate::history::repository::{RecordingFiles, RecordingRecord, RecordingStatus};
use crate::text::{chars_of, concat_str, owned, str_eq, string_from_chars};

verus! {

/// The steps taken after a successful live transcription.
#[derive(Debug, Clone, Copy, PartialEq, Eq)]
pub enum SttSuccessStep {
    PersistCompleted,
    EmitHistory,
    HideOverlay,
    PublishIdle,
    SpawnInsert,
}

/// Whether a capture that finished on its own (size limit) must be stopped:
/// only while the session is still recording.
pub fn should_auto_stop_capture(state: &SessionState, capture_finished: bool) -> (r: bool)
    ensures
        r == (state@ is Recording && capture_finished),
{
    match state {
        SessionState::Recording => capture_finished,
        _ => false,
    }
}

/// The full order of steps after a live transcription succeeds: persist,
/// tell the history view, hide the overlay, go idle, then insert the text.
pub fn live_stt_success_path() -> (r: [SttSuccessStep; 5])
    ensures
        r@ == seq![
            SttSuccessStep::PersistCompleted,
            SttSuccessStep::EmitHistory,
            SttSuccessStep::HideOverlay,
            SttSuccessStep::PublishIdle,
            SttSuccessStep::SpawnInsert,
        ],
{
    [
        SttSuccessStep::PersistCompleted,
        SttSuccessStep::EmitHistory,
        SttSuccessStep::HideOverlay,
        SttSuccessStep::PublishIdle,
        SttSuccessStep::SpawnInsert,
    ]
}

/// The steps after the result has been persisted.
pub fn stt_success_steps() -> (r: [SttSuccessStep; 4])
    ensures
        r@ == seq![
            SttSuccessStep::EmitHistory,
            SttSuccessStep::HideOverlay,
            SttSuccessStep::PublishIdle,
            SttSuccessStep::SpawnInsert,
        ],
{
    [
        SttSuccessStep::EmitHistory,
        SttSuccessStep::HideOverlay,
        SttSuccessStep::PublishIdle,
        SttSuccessStep::SpawnInsert,
    ]
}

/// Whether a stopped recording may go on to transcription.
pub fn stop_pipeline_allowed(lease_ok: bool, has_recording_id: bool) -> (r: bool)
    ensures
        r == (lease_ok && has_recording_id),
{
    lease_ok && has_recording_id
}

/// Whether the stop path may continue to saving: it needs a recording id and
/// a session that is still stopping or saving.
pub fn finish_stop_may_continue(state: &SessionState, has_id: bool) -> (r: bool)
    ensures
        r == (has_id && (state@ is StoppingRecording || state@ is Saving)),
{
    has_id && match state {
        SessionState::StoppingRecording | SessionState::Saving => true,
        _ => false,
    }
}

/// A retry from history may start only while no live session is under way:
/// when the session is idle, failed or completed.
pub fn history_retry_allowed(state: &SessionState) -> (r: Result<(), AppError>)
    ensures
        r is Ok == (state@ is Idle || state@ is Failed || state@ is Completed),
        r matches Err(e) ==> e == AppError::TranscriptionInProgress,
{
    match state {
        SessionState::Idle | SessionState::Failed { .. } | SessionState::Completed => Ok(()),
        _ => Err(AppError::TranscriptionInProgress),
    }
}

/// The events a finished history retry posts to the session it claimed:
/// success and dismissal, the cancellation alone, or the failure and
/// dismissal.
pub open spec fn release_events(error: Option<AppError>) -> Seq<SessionEvent> {
    match error {
        None => seq![SessionEvent::Succeeded, SessionEvent::Dismiss],
        Some(AppError::Cancelled) => seq![SessionEvent::Cancelled],
        Some(err) => seq![SessionEvent::Failed(err), SessionEvent::Dismiss],
    }
}

/// The events to post when a history retry that claimed the session ends,
/// with the error it ended with, if any.
pub fn retry_release_events(error: Option<AppError>) -> (r: Vec<SessionEvent>)
    ensures
        r@ == release_events(error),
{
    match error {
        None => vec![SessionEvent::Succeeded, SessionEvent::Dismiss],
        Some(AppError::Cancelled) => vec![SessionEvent::Cancelled],
        Some(err) => vec![SessionEvent::Failed(err), SessionEvent::Dismiss],
    }
}

/// Where a run of events leads from a state, or `None` at the first event
/// the state on the way refuses.
pub open spec fn run_events(s: StateView, events: Seq<SessionEvent>) -> Option<StateView>
    decreases events.len(),
{
    if events.len() == 0 {
        Some(s)
    } else {
        match next_state(s, events[0]) {
            Some(t) => run_events(t, events.subrange(1, events.len() as int)),
            None => None,
        }
    }
}

/// However a history retry ends, the events it posts are all accepted by a
/// session that is transcribing or waiting to retry, and leave it idle.
pub proof fn law_released_retry_goes_idle(s: StateView, error: Option<AppError>)
    requires
        s is Transcribing || s is RetryWaiting,
    ensures
        run_events(s, release_events(error)) == Some(StateView::Idle),
{
    let es = release_events(error);
    reveal_with_fuel(run_events, 3);
    assert(es.subrange(1, es.len() as int).len() + 1 == es.len());
    if es.len() == 2 {
        assert(es.subrange(1, 2) =~= seq![es[1]]);
        assert(seq![es[1]].subrange(1, 1) =~= Seq::<SessionEvent>::empty());
    } else {
        assert(es.subrange(1, 1) =~= Seq::<SessionEvent>::empty());
    }
}

/// What startup makes of a recording left processing by an earlier run:
/// interrupted where its audio is still on disk, else failed for missing
/// audio; the error gives the stored code and message.
pub fn stale_processing_outcome(has_audio: bool) -> (r: (RecordingStatus, AppError))
    ensures
        has_audio ==> r.0 == RecordingStatus::Interrupted && r.1 == AppError::Interrupted,
        !has_audio ==> r.0 == RecordingStatus::Failed && (r.1 matches AppError::StorageFailed(m)
            && m@ == "audio missing"@),
{
    if has_audio {
        (RecordingStatus::Interrupted, AppError::Interrupted)
    } else {
        (RecordingStatus::Failed, AppError::StorageFailed(owned("audio missing")))
    }
}

/// The language hint sent with a transcription: none for `auto`, else the
/// configured language.
pub fn stt_language(language: &str) -> (r: Option<&str>)
    ensures
        if language@ == "auto"@ {
            r is None
        } else {
            r == Some(language)
        },
{
    if str_eq(language, "auto") {
        None
    } else {
        Some(language)
    }
}

/// The capture device asked for: none (the system default) for `default`,
/// else the configured device.
pub fn selected_input_device(input_device: &str) -> (r: Option<&str>)
    ensures
        if input_device@ == "default"@ {
            r is None
        } else {
            r == Some(input_device)
        },
{
    if str_eq(input_device, "default") {
        None
    } else {
        Some(input_device)
    }
}

/// The file a recording's raw capture is written to.
pub fn raw_audio_name(recording_id: &str) -> (r: String)
    ensures
        r@ == recording_id@ + ".raw.wav"@,
{
    concat_str(recording_id, ".raw.wav")
}

/// The file a recording's processed audio is written to.
pub fn processed_audio_name(recording_id: &str) -> (r: String)
    ensures
        r@ == recording_id@ + ".processed.wav"@,
{
    concat_str(recording_id, ".processed.wav")
}

/// The audio a retry from history sends: the processed file, else the raw
/// capture; a recording with neither cannot be retried.
pub fn retry_source(rec: &RecordingFiles) -> (r: Result<&String, AppError>)
    ensures
        match r {
            Ok(name) => if rec.processed_audio_path is Some {
                *name == rec.processed_audio_path->0
            } else {
                rec.raw_audio_path is Some && *name == rec.raw_audio_path->0
            },
            Err(e) => rec.processed_audio_path is None && rec.raw_audio_path is None && (e
                matches AppError::StorageFailed(m) && m@ == "audio missing"@),
        },
{
    match &rec.processed_audio_path {
        Some(p) => Ok(p),
        None => match &rec.raw_audio_path {
            Some(p) => Ok(p),
            None => Err(AppError::StorageFailed(owned("audio missing"))),
        },
    }
}

/// What cancelling does in a state.
#[derive(Debug, Clone, Copy, PartialEq, Eq)]
pub enum CancelPath {
    /// Capture is starting or running: stop it and throw the audio away.
    DiscardCapture,
    /// The recording is being saved, processed or transcribed: keep its
    /// audio and mark it cancelled.
    AbortPipeline,
    /// Nothing is under way.
    Nothing,
}

/// The cancel path of each state.
pub open spec fn cancel_path_of(s: StateView) -> CancelPath {
    match s {
        StateView::StartingRecording | StateView::Recording => CancelPath::DiscardCapture,
        StateView::StoppingRecording | StateView::Saving | StateView::ProcessingAudio
        | StateView::Transcribing { .. } | StateView::RetryWaiting { .. } => CancelPath::AbortPipeline,
        _ => CancelPath::Nothing,
    }
}

/// What cancelling does in `state`.
pub fn cancel_path(state: &SessionState) -> (r: CancelPath)
    ensures
        r == cancel_path_of(state@),
{
    match state {
        SessionState::StartingRecording | SessionState::Recording => CancelPath::DiscardCapture,
        SessionState::StoppingRecording | SessionState::Saving | SessionState::ProcessingAudio
        | SessionState::Transcribing { .. } | SessionState::RetryWaiting { .. } => {
            CancelPath::AbortPipeline
        },
        _ => CancelPath::Nothing,
    }
}

/// Cancelling does something exactly in the states the session machine lets
/// a cancel into, and then the session goes idle.
pub proof fn law_cancel_path_follows_machine(s: StateView)
    ensures
        cancel_path_of(s) != CancelPath::Nothing <==> cancellable(s),
        cancel_path_of(s) != CancelPath::Nothing <==> next_state(s, SessionEvent::Cancelled)
            == Some(StateView::Idle),
{
}

/// The session event a transcription progress report posts: an attempt
/// starting, or a retry being scheduled; a finished attempt posts none (it
/// is stored instead).
pub fn progress_event(progress: &SttProgress) -> (r: Option<SessionEvent>)
    ensures
        r == match *progress {
            SttProgress::Attempt(attempt) => Some(SessionEvent::TranscriptAttemptStarted { attempt }),
            SttProgress::Waiting { attempt, delay_ms } => Some(
                SessionEvent::RetryScheduled { attempt, delay_ms },
            ),
            SttProgress::Finished { .. } => None,
        },
{
    match progress {
        SttProgress::Attempt(attempt) => Some(
            SessionEvent::TranscriptAttemptStarted { attempt: *attempt },
        ),
        SttProgress::Waiting { attempt, delay_ms } => Some(
            SessionEvent::RetryScheduled { attempt: *attempt, delay_ms: *delay_ms },
        ),
        SttProgress::Finished { .. } => None,
    }
}

/// Every progress event of a running transcription is accepted: a new
/// attempt while transcribing or waiting to retry, and a scheduled retry
/// while transcribing.
pub proof fn law_progress_events_are_accepted(s: StateView, attempt: u32, delay_ms: u64)
    ensures
        (s is Transcribing || s is RetryWaiting) ==> next_state(
            s,
            SessionEvent::TranscriptAttemptStarted { attempt },
        ) == Some(StateView::Transcribing { attempt }),
        s is Transcribing ==> next_state(s, SessionEvent::RetryScheduled { attempt, delay_ms })
            == Some(StateView::RetryWaiting { attempt, delay_ms }),
{
}

/// What keeping a transcription result amounts to: the record to store
/// (none when the result is dropped), the session events to apply in
/// order, and what the processing step reports.
pub struct SttCommit {
    pub record: Option<RecordingRecord>,
    pub events: Vec<SessionEvent>,
    pub result: Result<(), AppError>,
}

/// The record after a live transcription result was kept: completed, with
/// the text and what the provider reported, stamped `now_ms`.
pub open spec fn completed_record(rec: RecordingRecord, s: TranscriptionSuccess, now_ms: i64) -> RecordingRecord {
    RecordingRecord {
        status: RecordingStatus::Completed,
        transcript: Some(s.text),
        attempt_count: s.attempt as i64,
        usage_json: s.usage_json,
        generation_id: s.generation_id,
        latency_ms: Some(s.latency_ms as i64),
        completed_at_ms: Some(now_ms),
        updated_at_ms: now_ms,
        ..rec
    }
}

/// `r` is `rec` marked failed with `err` at `now_ms`: the status, the error
/// code and message and the update time change, nothing else.
pub open spec fn failed_record(r: RecordingRecord, rec: RecordingRecord, err: AppError, now_ms: i64) -> bool {
    &&& (r.last_error_code matches Some(c) && c@ == error_code(err))
    &&& (r.last_error_message matches Some(m) && m@ == error_message(err))
    &&& r == RecordingRecord {
        status: RecordingStatus::Failed,
        last_error_code: r.last_error_code,
        last_error_message: r.last_error_message,
        updated_at_ms: now_ms,
        ..rec
    }
}

/// `rec` marked failed with `err` at `now_ms`.
pub fn mark_recording_failed(rec: RecordingRecord, err: &AppError, now_ms: i64) -> (r: RecordingRecord)
    ensures
        failed_record(r, rec, *err, now_ms),
{
    RecordingRecord {
        status: RecordingStatus::Failed,
        last_error_message: Some(err.user_message()),
        last_error_code: Some(owned(err.code())),
        updated_at_ms: now_ms,
        ..rec
    }
}

/// Keeps or drops the result of a live transcription started under
/// `started_generation`. A success is kept only while the session is still
/// the one that started it and was not cancelled: the record becomes
/// completed and the session succeeds and is dismissed; otherwise nothing
/// is stored and the step reports a cancel. A cancel is passed on as is. Any
/// other failure marks the record failed and is passed on.
pub fn commit_stt_outcome(
    rec: RecordingRecord,
    outcome: Result<TranscriptionSuccess, AppError>,
    started_generation: u64,
    current_generation: u64,
    cancelled: bool,
    now_ms: i64,
) -> (r: SttCommit)
    requires
        outcome matches Ok(s) ==> s.latency_ms <= i64::MAX,
    ensures
        match outcome {
            Ok(s) => if !cancelled && started_generation == current_generation {
                &&& r.record == Some(completed_record(rec, s, now_ms))
                &&& r.events@ == seq![SessionEvent::Succeeded, SessionEvent::Dismiss]
                &&& r.result == Ok::<(), AppError>(())
            } else {
                &&& r.record is None
                &&& r.events@.len() == 0
                &&& r.result == Err::<(), AppError>(AppError::Cancelled)
            },
            Err(AppError::Cancelled) => {
                &&& r.record is None
                &&& r.events@.len() == 0
                &&& r.result == Err::<(), AppError>(AppError::Cancelled)
            },
            Err(e) => {
                &&& r.record matches Some(x) && failed_record(x, rec, e, now_ms)
                &&& r.events@.len() == 0
                &&& r.result == Err::<(), AppError>(e)
            },
        },
{
    match outcome {
        Ok(s) => {
            if !crate::app::machine::may_commit_session(started_generation, current_generation, cancelled) {
                return SttCommit { record: None, events: Vec::new(), result: Err(AppError::Cancelled) };
            }
            let latency = s.latency_ms as i64;
            let attempt = s.attempt as i64;
            let record = RecordingRecord {
                status: RecordingStatus::Completed,
                transcript: Some(s.text),
                attempt_count: attempt,
                usage_json: s.usage_json,
                generation_id: s.generation_id,
                latency_ms: Some(latency),
                completed_at_ms: Some(now_ms),
                updated_at_ms: now_ms,
                ..rec
            };
            let mut events: Vec<SessionEvent> = Vec::new();
            events.push(SessionEvent::Succeeded);
            events.push(SessionEvent::Dismiss);
            SttCommit { record: Some(record), events, result: Ok(()) }
        },
        Err(AppError::Cancelled) => SttCommit {
            record: None,
            events: Vec::new(),
            result: Err(AppError::Cancelled),
        },
        Err(e) => {
            let record = mark_recording_failed(rec, &e, now_ms);
            SttCommit { record: Some(record), events: Vec::new(), result: Err(e) }
        },
    }
}

/// The record once a stopped capture is saved: its length and raw file,
/// stamped `now_ms`; a capture cut at the size limit also records that it
/// was truncated.
pub fn stop_record_update(
    rec: RecordingRecord,
    duration_ms: u64,
    raw_name: String,
    truncated: bool,
    now_ms: i64,
) -> (r: RecordingRecord)
    requires
        duration_ms <= i64::MAX,
    ensures
        r == (RecordingRecord {
            duration_ms: duration_ms as i64,
            raw_audio_path: Some(raw_name),
            updated_at_ms: now_ms,
            last_error_code: r.last_error_code,
            last_error_message: r.last_error_message,
            ..rec
        }),
        truncated ==> (r.last_error_code matches Some(c) && c@ == error_code(AppError::RecordingTooLarge)),
        truncated ==> (r.last_error_message matches Some(m) && m@ == "Recording truncated"@),
        !truncated ==> r.last_error_code == rec.last_error_code && r.last_error_message
            == rec.last_error_message,
{
    let duration = duration_ms as i64;
    let mut r = RecordingRecord {
        duration_ms: duration,
        raw_audio_path: Some(raw_name),
        updated_at_ms: now_ms,
        ..rec
    };
    if truncated {
        r.last_error_code = Some(owned(AppError::RecordingTooLarge.code()));
        r.last_error_message = Some(owned("Recording truncated"));
    }
    r
}

/// The record when a retry from history starts: processing again, stamped
/// `now_ms`.
pub fn retry_started_record(rec: RecordingRecord, now_ms: i64) -> (r: RecordingRecord)
    ensures
        r == (RecordingRecord { status: RecordingStatus::Processing, updated_at_ms: now_ms, ..rec }),
{
    RecordingRecord { status: RecordingStatus::Processing, updated_at_ms: now_ms, ..rec }
}

/// The record after a retry from history, and what the retry reports: a
/// success completes it under the model used, with the text, clears the
/// last error and is reported; a failure marks it failed and is passed on.
pub fn retry_result_record(
    rec: RecordingRecord,
    outcome: Result<TranscriptionSuccess, AppError>,
    model: String,
    now_ms: i64,
) -> (r: (RecordingRecord, Result<(), AppError>))
    requires
        outcome matches Ok(s) ==> s.latency_ms <= i64::MAX,
    ensures
        match outcome {
            Ok(s) => {
                &&& r.0 == (RecordingRecord {
                    status: RecordingStatus::Completed,
                    model,
                    transcript: Some(s.text),
                    attempt_count: s.attempt as i64,
                    usage_json: s.usage_json,
                    generation_id: s.generation_id,
                    latency_ms: Some(s.latency_ms as i64),
                    completed_at_ms: Some(now_ms),
                    last_error_code: None,
                    last_error_message: None,
                    updated_at_ms: now_ms,
                    ..rec
                })
                &&& r.1 is Ok
            },
            Err(e) => failed_record(r.0, rec, e, now_ms) && r.1 == Err::<(), AppError>(e),
        },
{
    match outcome {
        Ok(s) => {
            let latency = s.latency_ms as i64;
            let attempt = s.attempt as i64;
            (
                RecordingRecord {
                    status: RecordingStatus::Completed,
                    model,
                    transcript: Some(s.text),
                    attempt_count: attempt,
                    usage_json: s.usage_json,
                    generation_id: s.generation_id,
                    latency_ms: Some(latency),
                    completed_at_ms: Some(now_ms),
                    last_error_code: None,
                    last_error_message: None,
                    updated_at_ms: now_ms,
                    ..rec
                },
                Ok(()),
            )
        },
        Err(e) => {
            let record = mark_recording_failed(rec, &e, now_ms);
            (record, Err(e))
        },
    }
}

/// The session event that follows storing a stopped capture's record: the
/// session saves on to processing when the record was stored, and the save
/// fails when the record is missing.
pub fn stop_save_events(stored: bool) -> (r: Vec<SessionEvent>)
    ensures
        stored ==> r@ == seq![SessionEvent::Saved],
        !stored ==> r@.len() == 1 && (r@[0] matches SessionEvent::SaveFailed(AppError::StorageFailed(m))
            && m@ == "recording missing"@),
{
    let mut events: Vec<SessionEvent> = Vec::new();
    if stored {
        events.push(SessionEvent::Saved);
    } else {
        events.push(SessionEvent::SaveFailed(AppError::StorageFailed(owned("recording missing"))));
    }
    events
}

/// The session events after the processing pipeline of a stopped capture
/// failed: none for a cancel (the record is marked, the session already
/// moved on), else the session fails with the error.
pub fn pipeline_failure_events(err: &AppError) -> (r: Vec<SessionEvent>)
    ensures
        *err == AppError::Cancelled ==> r@.len() == 0,
        *err != AppError::Cancelled ==> r@ == seq![SessionEvent::Failed(*err)],
{
    let mut events: Vec<SessionEvent> = Vec::new();
    match err {
        AppError::Cancelled => {},
        _ => {
            events.push(SessionEvent::Failed(err.clone()));
        },
    }
    events
}

/// How a retry from history starts, checked in this order: refused while a
/// live session is under way; the recording must still be in the history
/// and still have audio, and an API key must be stored. When it may start,
/// the plan is the record marked processing at `now_ms` (the only thing to
/// write; a refused retry writes nothing) and the audio file to send: the
/// processed file, else the raw capture.
pub fn retry_plan(state: &SessionState, row: Option<RecordingRecord>, has_key: bool, now_ms: i64) -> (r:
    Result<(RecordingRecord, String), AppError>)
    ensures
        !(state@ is Idle || state@ is Failed || state@ is Completed) ==> r == Err::<(RecordingRecord, String), AppError>(
            AppError::TranscriptionInProgress,
        ),
        (state@ is Idle || state@ is Failed || state@ is Completed) ==> match row {
            None => r matches Err(AppError::StorageFailed(m)) && m@ == "recording missing"@,
            Some(rec) => if rec.processed_audio_path is None && rec.raw_audio_path is None {
                r matches Err(AppError::StorageFailed(m)) && m@ == "audio missing"@
            } else if !has_key {
                r == Err::<(RecordingRecord, String), AppError>(AppError::InvalidApiKey)
            } else {
                r matches Ok((started, source)) && started == (RecordingRecord {
                    status: RecordingStatus::Processing,
                    updated_at_ms: now_ms,
                    ..rec
                }) && source@ == (if rec.processed_audio_path is Some {
                    rec.processed_audio_path->0@
                } else {
                    rec.raw_audio_path->0@
                })
            },
        },
{
    if let Err(e) = history_retry_allowed(state) {
        return Err(e);
    }
    let rec = match row {
        Some(rec) => rec,
        None => {
            return Err(AppError::StorageFailed(owned("recording missing")));
        },
    };
    let files = RecordingFiles {
        raw_audio_path: rec.raw_audio_path.clone(),
        processed_audio_path: rec.processed_audio_path.clone(),
    };
    let source = match retry_source(&files) {
        Ok(name) => string_from_chars(chars_of(name.as_str()).as_slice()),
        Err(e) => {
            return Err(e);
        },
    };
    if !has_key {
        return Err(AppError::InvalidApiKey);
    }
    Ok((retry_started_record(rec, now_ms), source))
}

/// The raw capture a stopped recording is processed from: the recording
/// must still be in the history and keep its raw file.
pub fn processing_source(row: Option<&RecordingRecord>) -> (r: Result<String, AppError>)
    ensures
        row is None ==> (r matches Err(AppError::StorageFailed(m)) && m@ == "recording missing"@),
        row matches Some(rec) ==> match rec.raw_audio_path {
            Some(name) => r matches Ok(n) && n@ == name@,
            None => r matches Err(AppError::StorageFailed(m)) && m@ == "raw missing"@,
        },
{
    match row {
        None => Err(AppError::StorageFailed(owned("recording missing"))),
        Some(rec) => match &rec.raw_audio_path {
            Some(name) => Ok(string_from_chars(chars_of(name.as_str()).as_slice())),
            None => Err(AppError::StorageFailed(owned("raw missing"))),
        },
    }
}

/// The check between the steps of processing a recording started under
/// `started_generation`: it goes on only while not cancelled and no new
/// session started; otherwise it stops as cancelled.
pub fn processing_gate(cancelled: bool, started_generation: u64, current_generation: u64) -> (r: Result<
    (),
    AppError,
>)
    ensures
        r is Ok == (!cancelled && started_generation == current_generation),
        r is Err ==> r == Err::<(), AppError>(AppError::Cancelled),
{
    if cancelled || !crate::app::machine::may_commit_session(started_generation, current_generation, false) {
        Err(AppError::Cancelled)
    } else {
        Ok(())
    }
}

} // verus!
