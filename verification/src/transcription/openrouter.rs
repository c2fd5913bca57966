//! Connection options, request shape and progress reports of the
//! OpenRouter transcription client.
use vstd::prelude::*;

use crate::error::AppError;
use crate::text::{chars_of, concat_str, owned, slice_chars, str_eq, string_from_chars};
use crate::transcription::retry::{classify_http, error_category, error_category_spec, http_classified, AttemptDecision, ClassifiedError, RetryClass, RetryScheduler};

verus! {

/// The OpenRouter API root.
pub const DEFAULT_BASE: &'static str = "https://openrouter.ai/api/v1";

/// HTTP options of the transcription client.
#[derive(Debug, Clone, Copy, PartialEq, Eq)]
pub struct SttHttpOptions {
    pub http1_only: bool,
    pub pool_max_idle_per_host: usize,
}

/// The transcription client speaks HTTP/1.1 only and keeps at most two idle
/// connections.
pub fn stt_http_options() -> (r: SttHttpOptions)
    ensures
        r.http1_only,
        r.pool_max_idle_per_host == 2,
{
    SttHttpOptions { http1_only: true, pool_max_idle_per_host: 2 }
}

/// The API root used by default.
pub fn default_base_url() -> (r: &'static str)
    ensures
        r@ == DEFAULT_BASE@,
{
    DEFAULT_BASE
}

/// How warming up the connection went.
#[derive(Debug, Clone, PartialEq, Eq)]
pub enum PrewarmOutcome {
    Ready { status: u16, latency_ms: u64 },
    Failed { category: &'static str, latency_ms: u64 },
}

/// A model that can transcribe.
#[derive(Debug, Clone, PartialEq)]
pub struct SttModel {
    pub id: String,
    pub name: String,
}

/// Progress of one transcription, as shown in the history view.
#[derive(Debug, Clone, PartialEq, Eq)]
pub enum SttProgress {
    Attempt(u32),
    Waiting { attempt: u32, delay_ms: u64 },
    Finished {
        attempt: u32,
        outcome: &'static str,
        http_status: Option<u16>,
        latency_ms: u128,
        category: Option<String>,
    },
}

/// A successful transcription: the text and what the provider reported
/// about it (its reported cost, a float, is not kept here).
#[derive(Debug, Clone, PartialEq)]
pub struct TranscriptionSuccess {
    pub text: String,
    pub usage_json: Option<String>,
    pub generation_id: Option<String>,
    pub latency_ms: u128,
    pub attempt: u32,
    pub model: String,
}

/// The largest audio file sent for transcription: 25 MiB.
pub const MAX_UPLOAD_BYTES: u64 = 26_214_400;

/// Whether an audio file of `len` bytes is too large to send.
pub fn upload_too_large(len: u64) -> (r: bool)
    ensures
        r == (len > MAX_UPLOAD_BYTES),
{
    len > MAX_UPLOAD_BYTES
}

/// `s` without its trailing slashes.
pub open spec fn trim_slashes(s: Seq<char>) -> Seq<char>
    decreases s.len(),
{
    if s.len() > 0 && s.last() == '/' {
        trim_slashes(s.drop_last())
    } else {
        s
    }
}

/// The transcription endpoint under an API root.
pub open spec fn transcription_url_of(base_url: Seq<char>) -> Seq<char> {
    trim_slashes(base_url) + "/audio/transcriptions"@
}

/// `base_url` without its trailing slashes.
fn trimmed_base(base_url: &str) -> (r: String)
    ensures
        r@ == trim_slashes(base_url@),
{
    let c = chars_of(base_url);
    let mut end: usize = c.len();
    proof {
        assert(c@.subrange(0, c@.len() as int) =~= c@);
    }
    while end > 0 && c[end - 1] == '/'
        invariant
            end <= c@.len(),
            trim_slashes(c@.subrange(0, end as int)) == trim_slashes(c@),
        decreases end,
    {
        proof {
            assert(c@.subrange(0, end as int).drop_last() =~= c@.subrange(0, end - 1));
        }
        end = end - 1;
    }
    let head = slice_chars(c.as_slice(), 0, end);
    let base = string_from_chars(head.as_slice());
    base
}

/// The transcription endpoint under the API root `base_url`, which may end
/// in slashes.
pub fn transcription_url(base_url: &str) -> (r: String)
    ensures
        r@ == transcription_url_of(base_url@),
{
    let base = trimmed_base(base_url);
    concat_str(base.as_str(), "/audio/transcriptions")
}

/// The language field sent with a transcription: none for `auto` or no
/// language.
pub fn language_field(language: Option<&str>) -> (r: Option<&str>)
    ensures
        r == match language {
            Some(l) => if l@ == "auto"@ {
                None
            } else {
                Some(l)
            },
            None => None,
        },
{
    match language {
        Some(l) => {
            if str_eq(l, "auto") {
                None
            } else {
                Some(l)
            }
        },
        None => None,
    }
}

/// Whether an HTTP status reports success (2xx).
pub fn is_http_success(status: u16) -> (r: bool)
    ensures
        r == (200 <= status < 300),
{
    200 <= status && status < 300
}

/// Whether the shared client must be rebuilt: only when the connect
/// timeout changed.
pub fn transport_needs_rebuild(current_connect_ms: u64, wanted_connect_ms: u64) -> (r: bool)
    ensures
        r == (current_connect_ms != wanted_connect_ms),
{
    current_connect_ms != wanted_connect_ms
}

/// How one transcription attempt ended.
#[derive(Debug, Clone, Copy, PartialEq, Eq)]
pub enum AttemptEnd {
    Cancelled,
    Succeeded,
    Failed { http_status: Option<u16>, category: &'static str },
}

/// `p` is the report that closes attempt `attempt`, ended as `end` after
/// `latency_ms`.
pub open spec fn reports_finished(p: SttProgress, attempt: u32, end: AttemptEnd, latency_ms: u128) -> bool {
    match end {
        AttemptEnd::Cancelled => p matches SttProgress::Finished {
            attempt: a,
            outcome,
            http_status: None,
            latency_ms: l,
            category: Some(c),
        } && a == attempt && outcome@ == "cancelled"@ && l == latency_ms && c@ == "cancelled"@,
        AttemptEnd::Succeeded => p matches SttProgress::Finished {
            attempt: a,
            outcome,
            http_status: Some(200),
            latency_ms: l,
            category: None,
        } && a == attempt && outcome@ == "success"@ && l == latency_ms,
        AttemptEnd::Failed { http_status, category } => p matches SttProgress::Finished {
            attempt: a,
            outcome,
            http_status: h,
            latency_ms: l,
            category: Some(c),
        } && a == attempt && outcome@ == "error"@ && h == http_status && l == latency_ms && c@
            == category@,
    }
}

/// The progress report that closes an attempt.
pub fn finished_progress(attempt: u32, end: AttemptEnd, latency_ms: u128) -> (r: SttProgress)
    ensures
        reports_finished(r, attempt, end, latency_ms),
{
    match end {
        AttemptEnd::Cancelled => SttProgress::Finished {
            attempt,
            outcome: "cancelled",
            http_status: None,
            latency_ms,
            category: Some(owned("cancelled")),
        },
        AttemptEnd::Succeeded => SttProgress::Finished {
            attempt,
            outcome: "success",
            http_status: Some(200),
            latency_ms,
            category: None,
        },
        AttemptEnd::Failed { http_status, category } => SttProgress::Finished {
            attempt,
            outcome: "error",
            http_status,
            latency_ms,
            category: Some(owned(category)),
        },
    }
}

/// The two addresses a connection warm-up tries under an API root: the
/// model list (asked with `HEAD`), then the transcription models (asked
/// with `GET`).
pub fn prewarm_urls(base_url: &str) -> (r: (String, String))
    ensures
        r.0@ == trim_slashes(base_url@) + "/models"@,
        r.1@ == trim_slashes(base_url@) + "/models?output_modalities=transcription"@,
{
    let base = trimmed_base(base_url);
    (
        concat_str(base.as_str(), "/models"),
        concat_str(base.as_str(), "/models?output_modalities=transcription"),
    )
}

/// Whether the `HEAD` warm-up counts as done: any status but 405 and 501,
/// which mean the server does not take `HEAD` and `GET` must be tried.
pub fn head_prewarm_accepted(status: u16) -> (r: bool)
    ensures
        r == (status != 405 && status != 501),
{
    status != 405 && status != 501
}

/// The largest warm-up response body read to the end (so that the
/// connection goes back to the pool): 256 KiB.
pub const PREWARM_BODY_LIMIT: u64 = 262_144;

/// Whether a warm-up response body is read to the end: unless it announces
/// more than the limit.
pub fn drain_prewarm_body(content_length: Option<u64>) -> (r: bool)
    ensures
        r == match content_length {
            Some(len) => len <= PREWARM_BODY_LIMIT,
            None => true,
        },
{
    match content_length {
        Some(len) => len <= PREWARM_BODY_LIMIT,
        None => true,
    }
}

/// Milliseconds as a `u64`, saturating.
pub fn millis_u64(ms: u128) -> (r: u64)
    ensures
        r == if ms > u64::MAX {
            u64::MAX as int
        } else {
            ms as int
        },
{
    if ms > u64::MAX as u128 {
        u64::MAX
    } else {
        ms as u64
    }
}

/// A listed model: its id, and its name or, without one, its id again.
pub fn stt_model_entry(id: &str, name: Option<&str>) -> (r: SttModel)
    ensures
        r.id@ == id@,
        r.name@ == match name {
            Some(n) => n@,
            None => id@,
        },
{
    SttModel {
        id: owned(id),
        name: match name {
            Some(n) => owned(n),
            None => owned(id),
        },
    }
}

/// What the transcription loop does next.
pub enum SttAction {
    /// Send attempt `attempt`, giving it `timeout_ms`.
    Run { attempt: u32, timeout_ms: u64 },
    /// Wait `delay_ms` (ended early by a cancel), then start the next attempt.
    Wait { delay_ms: u64 },
    /// Start the next attempt right away.
    Next,
    /// The transcription is over, with this result.
    Done(Result<TranscriptionSuccess, AppError>),
}

/// One decision of the transcription loop: the progress to report, in
/// order, then what to do.
pub struct SttStep {
    pub progress: Vec<SttProgress>,
    pub action: SttAction,
}

/// How an attempt came back.
pub enum AttemptReply {
    /// The cancel fired while the request was under way.
    Cancelled,
    Succeeded(TranscriptionSuccess),
    Failed(ClassifiedError),
}

/// The jitter, in thousandths, applied to the wait before a retry.
pub const RETRY_JITTER_PERMILLE: u32 = 80;

/// The step that opens each round of the transcription loop: a cancel ends
/// it; otherwise the scheduler decides, and a run is announced as a new
/// attempt, a wait as a scheduled retry, and giving up ends the loop with
/// the scheduler's error.
pub fn start_step(scheduler: &mut RetryScheduler, cancelled: bool, now_ms: u64, audio_ms: u64) -> (r:
    SttStep)
    requires
        old(scheduler).inv(),
    ensures
        final(scheduler).inv(),
        final(scheduler).policy == old(scheduler).policy,
        final(scheduler).deadline_ms == old(scheduler).deadline_ms,
        cancelled ==> final(scheduler).attempts_used == old(scheduler).attempts_used && r.progress@.len()
            == 0 && r.action == SttAction::Done(Err(AppError::Cancelled)),
        !cancelled ==> {
            let (d, used) = old(scheduler).start_outcome(now_ms, audio_ms);
            &&& final(scheduler).attempts_used == used
            &&& match d {
                AttemptDecision::GiveUp(e) => r.progress@.len() == 0 && r.action
                    == SttAction::Done(Err(e)),
                AttemptDecision::Wait { attempt, delay_ms } => r.progress@ == seq![
                    SttProgress::Waiting { attempt, delay_ms },
                ] && r.action == (SttAction::Wait { delay_ms }),
                AttemptDecision::Run { attempt, timeout_ms } => r.progress@ == seq![
                    SttProgress::Attempt(attempt),
                ] && r.action == (SttAction::Run { attempt, timeout_ms }),
            }
        },
{
    if cancelled {
        return SttStep { progress: Vec::new(), action: SttAction::Done(Err(AppError::Cancelled)) };
    }
    let mut progress: Vec<SttProgress> = Vec::new();
    match scheduler.start_attempt(now_ms, audio_ms) {
        AttemptDecision::GiveUp(e) => SttStep { progress, action: SttAction::Done(Err(e)) },
        AttemptDecision::Wait { attempt, delay_ms } => {
            progress.push(SttProgress::Waiting { attempt, delay_ms });
            SttStep { progress, action: SttAction::Wait { delay_ms } }
        },
        AttemptDecision::Run { attempt, timeout_ms } => {
            progress.push(SttProgress::Attempt(attempt));
            SttStep { progress, action: SttAction::Run { attempt, timeout_ms } }
        },
    }
}

/// The step after attempt `attempt` came back after `latency_ms`. A cancel
/// during the request, or one seen when a success arrives, closes the
/// attempt as cancelled and ends the loop cancelled. A success closes it
/// as such and ends the loop with the text, stamped with the attempt, the
/// latency and `model`. A failure closes it as an error of its category and
/// lets the scheduler decide: give up with its error, wait (announcing the
/// retry), or go on at once.
pub fn reply_step(
    scheduler: &RetryScheduler,
    attempt: u32,
    reply: AttemptReply,
    cancelled: bool,
    latency_ms: u128,
    now_ms: u64,
    model: &str,
) -> (r: SttStep)
    requires
        scheduler.inv(),
    ensures
        match reply {
            AttemptReply::Cancelled => r.progress@.len() == 1 && reports_finished(
                r.progress@[0],
                attempt,
                AttemptEnd::Cancelled,
                latency_ms,
            ) && r.action == SttAction::Done(Err(AppError::Cancelled)),
            AttemptReply::Succeeded(s) => if cancelled {
                r.progress@.len() == 1 && reports_finished(
                    r.progress@[0],
                    attempt,
                    AttemptEnd::Cancelled,
                    latency_ms,
                ) && r.action == SttAction::Done(Err(AppError::Cancelled))
            } else {
                &&& r.progress@.len() == 1
                &&& reports_finished(r.progress@[0], attempt, AttemptEnd::Succeeded, latency_ms)
                &&& r.action matches SttAction::Done(Ok(t)) && t.text == s.text && t.usage_json
                    == s.usage_json && t.generation_id == s.generation_id && t.attempt == attempt
                    && t.latency_ms == latency_ms && t.model@ == model@
            },
            AttemptReply::Failed(c) => {
                let closes = r.progress@.len() >= 1 && (r.progress@[0] matches SttProgress::Finished {
                    attempt: a,
                    outcome,
                    http_status: h,
                    latency_ms: l,
                    category: Some(cat),
                } && a == attempt && outcome@ == "error"@ && h == c.http_status && l == latency_ms
                    && cat@ == error_category_spec(c.error));
                match scheduler.failure_outcome(c, now_ms, RETRY_JITTER_PERMILLE) {
                    AttemptDecision::GiveUp(e) => closes && r.progress@.len() == 1 && r.action
                        == SttAction::Done(Err(e)),
                    AttemptDecision::Wait { attempt: next, delay_ms } => closes && r.progress@.len()
                        == 2 && r.progress@[1] == (SttProgress::Waiting { attempt: next, delay_ms })
                        && r.action == (SttAction::Wait { delay_ms }),
                    AttemptDecision::Run { .. } => r.progress@.len() == 0 && r.action
                        == SttAction::Next,
                }
            },
        },
{
    let mut progress: Vec<SttProgress> = Vec::new();
    match reply {
        AttemptReply::Cancelled => {
            progress.push(finished_progress(attempt, AttemptEnd::Cancelled, latency_ms));
            SttStep { progress, action: SttAction::Done(Err(AppError::Cancelled)) }
        },
        AttemptReply::Succeeded(s) => {
            if cancelled {
                progress.push(finished_progress(attempt, AttemptEnd::Cancelled, latency_ms));
                return SttStep { progress, action: SttAction::Done(Err(AppError::Cancelled)) };
            }
            let t = TranscriptionSuccess {
                text: s.text,
                usage_json: s.usage_json,
                generation_id: s.generation_id,
                latency_ms,
                attempt,
                model: owned(model),
            };
            progress.push(finished_progress(attempt, AttemptEnd::Succeeded, latency_ms));
            SttStep { progress, action: SttAction::Done(Ok(t)) }
        },
        AttemptReply::Failed(c) => {
            match scheduler.after_failure(&c, now_ms, RETRY_JITTER_PERMILLE) {
                AttemptDecision::GiveUp(e) => {
                    let end = AttemptEnd::Failed {
                        http_status: c.http_status,
                        category: error_category(&c.error),
                    };
                    progress.push(finished_progress(attempt, end, latency_ms));
                    SttStep { progress, action: SttAction::Done(Err(e)) }
                },
                AttemptDecision::Wait { attempt: next, delay_ms } => {
                    let end = AttemptEnd::Failed {
                        http_status: c.http_status,
                        category: error_category(&c.error),
                    };
                    progress.push(finished_progress(attempt, end, latency_ms));
                    progress.push(SttProgress::Waiting { attempt: next, delay_ms });
                    SttStep { progress, action: SttAction::Wait { delay_ms } }
                },
                AttemptDecision::Run { .. } => SttStep { progress, action: SttAction::Next },
            }
        },
    }
}

/// The views of an optional string.
pub open spec fn opt_string_view(s: Option<String>) -> Option<Seq<char>> {
    match s {
        Some(x) => Some(x@),
        None => None,
    }
}

/// What `serde_json::from_str` makes of a transcription reply body: none
/// when the body is not JSON; else its `text` member when that is a string,
/// and its `usage` member written back as compact JSON.
pub uninterp spec fn stt_reply_fields(body: Seq<char>) -> Option<(Option<Seq<char>>, Option<Seq<char>>)>;

/// Reads a transcription reply body with `serde_json::from_str`, keeping
/// the `text` member when it is a string and the `usage` member as compact
/// JSON (serde_json's `Display`). The contract only names the result: it is
/// whatever serde_json makes of the body.
#[verifier::external_body]
fn read_stt_reply(body: &str) -> (r: Option<(Option<String>, Option<String>)>)
    ensures
        match r {
            None => stt_reply_fields(body@) is None,
            Some((t, u)) => stt_reply_fields(body@) == Some((opt_string_view(t), opt_string_view(u))),
        },
{
    let v: serde_json::Value = serde_json::from_str(body).ok()?;
    let text = v.get("text").and_then(|t| t.as_str()).map(|t| t.to_string());
    Some((text, v.get("usage").map(|u| u.to_string())))
}

/// The failure a reply without a usable text is: terminal, malformed, with
/// the reply's HTTP status.
pub open spec fn malformed_reply(status: u16) -> ClassifiedError {
    ClassifiedError {
        class: RetryClass::Terminal,
        error: AppError::ResponseMalformed,
        http_status: Some(status),
        retry_after_ms: None,
    }
}

/// The success a reply's fields make: a reply with a string `text` is the
/// transcription (first attempt, no latency yet, the given generation id
/// and model, the usage kept); anything else is a malformed reply.
pub fn stt_success_from_reply(
    fields: Option<(Option<String>, Option<String>)>,
    status: u16,
    generation_id: Option<String>,
    model: &str,
) -> (r: Result<TranscriptionSuccess, ClassifiedError>)
    ensures
        match fields {
            Some((Some(t), u)) => r matches Ok(s) && s.text == t && s.usage_json == u
                && s.generation_id == generation_id && s.model@ == model@ && s.attempt == 1
                && s.latency_ms == 0,
            _ => r == Err::<TranscriptionSuccess, ClassifiedError>(malformed_reply(status)),
        },
{
    match fields {
        Some((Some(text), usage_json)) => Ok(
            TranscriptionSuccess {
                text,
                usage_json,
                generation_id,
                latency_ms: 0,
                attempt: 1,
                model: owned(model),
            },
        ),
        _ => Err(
            ClassifiedError {
                class: RetryClass::Terminal,
                error: AppError::ResponseMalformed,
                http_status: Some(status),
                retry_after_ms: None,
            },
        ),
    }
}

/// Reads a successful transcription reply: its text (required) and usage,
/// with this generation id and model; a body that is not JSON, or has no
/// string `text`, is a terminal malformed reply carrying `status`.
pub fn parse_stt_reply(body: &str, status: u16, generation_id: Option<String>, model: &str) -> (r: Result<
    TranscriptionSuccess,
    ClassifiedError,
>)
    ensures
        match stt_reply_fields(body@) {
            Some((Some(t), u)) => r matches Ok(s) && s.text@ == t && opt_string_view(s.usage_json) == u
                && s.generation_id == generation_id && s.model@ == model@ && s.attempt == 1
                && s.latency_ms == 0,
            _ => r == Err::<TranscriptionSuccess, ClassifiedError>(malformed_reply(status)),
        },
{
    let fields = read_stt_reply(body);
    stt_success_from_reply(fields, status, generation_id, model)
}

/// What one attempt makes of the server's reply: a status outside 2xx is a
/// failure classified from the status, the `Retry-After` delay and the
/// body; a 2xx reply is read as a transcription (see `parse_stt_reply`).
pub fn reply_outcome(
    status: u16,
    retry_after_ms: Option<u64>,
    body: &str,
    generation_id: Option<String>,
    model: &str,
) -> (r: Result<TranscriptionSuccess, ClassifiedError>)
    ensures
        !(200 <= status < 300) ==> (r matches Err(c) && http_classified(c, status, retry_after_ms, body@)),
        200 <= status < 300 ==> match stt_reply_fields(body@) {
            Some((Some(t), u)) => r matches Ok(s) && s.text@ == t && opt_string_view(s.usage_json) == u
                && s.generation_id == generation_id && s.model@ == model@ && s.attempt == 1
                && s.latency_ms == 0,
            _ => r == Err::<TranscriptionSuccess, ClassifiedError>(malformed_reply(status)),
        },
{
    if !is_http_success(status) {
        return Err(classify_http(status, retry_after_ms, body));
    }
    parse_stt_reply(body, status, generation_id, model)
}

} // verus!
