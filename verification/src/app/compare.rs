//! File names and model lists of the side-by-side model comparison.
use vstd::prelude::*;

use crate::error::{error_code, AppError};
use crate::transcription::openrouter::TranscriptionSuccess;
use crate::transcription::retry::RetryPolicy;
use crate::text::{chars_are, concat_str, owned, chars_eq, chars_of, decimal, extend_str, push_decimal,
    starts_with, starts_with_str, string_from_chars, trim, trim_of};

verus! {

/// `model-compare.<nonce><suffix>`.
pub open spec fn compare_name(nonce: u64, suffix: Seq<char>) -> Seq<char> {
    "model-compare."@ + decimal(nonce as nat) + suffix
}

fn compare_file_name(nonce: u64, suffix: &str) -> (r: String)
    ensures
        r@ == compare_name(nonce, suffix@),
{
    let mut v: Vec<char> = Vec::new();
    extend_str(&mut v, "model-compare.");
    push_decimal(&mut v, nonce as u128);
    extend_str(&mut v, suffix);
    string_from_chars(v.as_slice())
}

/// The playback clip of comparison take `nonce`.
pub fn compare_listen_name(nonce: u64) -> (r: String)
    ensures
        r@ == compare_name(nonce, ".listen.wav"@),
{
    compare_file_name(nonce, ".listen.wav")
}

/// The upload clip of comparison take `nonce`.
pub fn compare_stt_name(nonce: u64) -> (r: String)
    ensures
        r@ == compare_name(nonce, ".stt.wav"@),
{
    compare_file_name(nonce, ".stt.wav")
}

/// The raw capture of comparison take `nonce`.
pub fn compare_raw_name(nonce: u64) -> (r: String)
    ensures
        r@ == compare_name(nonce, ".raw.wav"@),
{
    compare_file_name(nonce, ".raw.wav")
}

/// The trimmed, non-empty model names, in order.
pub open spec fn kept_models(models: Seq<Seq<char>>) -> Seq<Seq<char>>
    decreases models.len(),
{
    if models.len() == 0 {
        seq![]
    } else {
        let rest = kept_models(models.drop_last());
        let t = trim(models.last());
        if t.len() > 0 {
            rest.push(t)
        } else {
            rest
        }
    }
}

/// The views of a list of strings.
pub open spec fn string_views(v: Seq<String>) -> Seq<Seq<char>> {
    v.map_values(|s: String| s@)
}

/// The error a rejected model list gets, by its message.
pub open spec fn compare_models_error(models: Seq<Seq<char>>) -> Option<Seq<char>> {
    let k = kept_models(models);
    if !(2 <= k.len() <= 4) {
        Some("compare needs 2-4 models"@)
    } else if !k.no_duplicates() {
        Some("compare models must be unique"@)
    } else {
        None
    }
}

fn request_error(msg: &str) -> (r: AppError)
    ensures
        r matches AppError::RequestValidationFailed(m) && m@ == msg@,
{
    AppError::RequestValidationFailed(owned(msg))
}

/// Checks the models chosen for a comparison: the trimmed, non-empty names
/// must number two to four and be distinct; they are returned in order.
pub fn validate_compare_models(models: &[String]) -> (r: Result<Vec<String>, AppError>)
    ensures
        match r {
            Ok(v) => compare_models_error(string_views(models@)) is None && string_views(v@)
                == kept_models(string_views(models@)),
            Err(e) => compare_models_error(string_views(models@)) matches Some(m) && e
                matches AppError::RequestValidationFailed(msg) && msg@ == m,
        },
{
    let ghost views = string_views(models@);
    let mut kept: Vec<String> = Vec::new();
    for i in 0..models.len()
        invariant
            views == string_views(models@),
            string_views(kept@) == kept_models(views.take(i as int)),
    {
        let t = trim_of(models[i].as_str());
        proof {
            assert(views.take(i + 1).drop_last() =~= views.take(i as int));
            assert(views.take(i + 1).last() == models@[i as int]@);
        }
        if t.len() > 0 {
            let s = string_from_chars(t.as_slice());
            kept.push(s);
            assert(string_views(kept@) =~= kept_models(views.take(i as int)).push(t@));
        }
    }
    assert(views.take(views.len() as int) =~= views);
    if kept.len() < 2 || kept.len() > 4 {
        return Err(request_error("compare needs 2-4 models"));
    }
    let n = kept.len();
    for i in 0..n
        invariant
            n == kept@.len(),
            2 <= n <= 4,
            string_views(kept@) == kept_models(string_views(models@)),
            forall|a: int, b: int|
                0 <= a < i && 0 <= b < n && a != b ==> #[trigger] kept@[a]@ != #[trigger] kept@[b]@,
    {
        for j in 0..n
            invariant
                n == kept@.len(),
                2 <= n <= 4,
                string_views(kept@) == kept_models(string_views(models@)),
                i < n,
                forall|a: int, b: int|
                    0 <= a < i && 0 <= b < n && a != b ==> #[trigger] kept@[a]@ != #[trigger] kept@[b]@,
                forall|b: int| 0 <= b < j && b != i ==> kept@[i as int]@ != #[trigger] kept@[b]@,
        {
            if j != i && crate::text::str_eq(kept[i].as_str(), kept[j].as_str()) {
                proof {
                    let k = string_views(kept@);
                    assert(k[i as int] == k[j as int]);
                    assert(!k.no_duplicates());
                }
                return Err(request_error("compare models must be unique"));
            }
        }
    }
    proof {
        let k = string_views(kept@);
        assert forall|a: int, b: int| 0 <= a < k.len() && 0 <= b < k.len() && a != b implies k[a]
            != k[b] by {
            assert(kept@[a]@ != kept@[b]@);
        }
    }
    Ok(kept)
}

/// Whether a WAV file belongs to the filter tools or to a comparison and
/// must survive orphan cleanup.
pub fn keep_compare_wav(name: &str) -> (r: bool)
    ensures
        r == (name@ == "filter-sample.wav"@ || starts_with(name@, "filter-preview"@) || starts_with(
            name@,
            "model-compare"@,
        )),
{
    let c = chars_of(name);
    chars_are(c.as_slice(), "filter-sample.wav") || starts_with_str(c.as_slice(), "filter-preview")
        || starts_with_str(c.as_slice(), "model-compare")
}

/// The copy of the upload clip that comparison run `run_id` sends, so that
/// a new take cannot change it under the run.
pub fn frozen_stt_name(run_id: &str) -> (r: String)
    ensures
        r@ == "model-compare."@ + run_id@ + ".stt.wav"@,
{
    let head = concat_str("model-compare.", run_id);
    concat_str(head.as_str(), ".stt.wav")
}

/// The retry policy of a comparison run: the user's policy with at most
/// one retry and a 90 s budget in all.
pub fn compare_retry_policy(policy: RetryPolicy) -> (r: RetryPolicy)
    ensures
        r == (RetryPolicy {
            additional_retries: if policy.additional_retries < 1 {
                policy.additional_retries
            } else {
                1
            },
            total_operation_timeout_ms: 90_000,
            ..policy
        }),
        r.attempts() <= 2,
{
    let mut p = policy;
    if p.additional_retries > 1 {
        p.additional_retries = 1;
    }
    p.total_operation_timeout_ms = 90_000;
    p
}

/// Whether a comparison take may start, checked in this order: not while
/// dictation is under way, a filter sample is recording, a take is
/// recording, or a comparison run is going on.
pub fn compare_start_check(
    dictation_cancellable: bool,
    filter_sample_running: bool,
    compare_recording: bool,
    compare_running: bool,
) -> (r: Result<(), AppError>)
    ensures
        dictation_cancellable ==> (r matches Err(AppError::IllegalTransition(m)) && m@
            == "dictation is already running"@),
        !dictation_cancellable && filter_sample_running ==> (r matches Err(
            AppError::IllegalTransition(m),
        ) && m@ == "filter sample is running"@),
        !dictation_cancellable && !filter_sample_running && compare_recording ==> (r matches Err(
            AppError::IllegalTransition(m),
        ) && m@ == "compare is already recording"@),
        !dictation_cancellable && !filter_sample_running && !compare_recording && compare_running
            ==> r == Err::<(), AppError>(AppError::TranscriptionInProgress),
        !dictation_cancellable && !filter_sample_running && !compare_recording && !compare_running
            ==> r is Ok,
{
    if dictation_cancellable {
        return Err(AppError::IllegalTransition(owned("dictation is already running")));
    }
    if filter_sample_running {
        return Err(AppError::IllegalTransition(owned("filter sample is running")));
    }
    if compare_recording {
        return Err(AppError::IllegalTransition(owned("compare is already recording")));
    }
    if compare_running {
        return Err(AppError::TranscriptionInProgress);
    }
    Ok(())
}

/// The number of the next comparison take: one past the last, saturating,
/// and never zero.
pub fn next_compare_nonce(nonce: u64) -> (r: u64)
    ensures
        r == if nonce == u64::MAX {
            u64::MAX as int
        } else {
            nonce + 1
        },
        r >= 1,
{
    let next = nonce.saturating_add(1);
    if next < 1 {
        1
    } else {
        next
    }
}

/// One model's column in a comparison run (the provider's reported cost,
/// a float, is not kept here).
#[derive(Debug, Clone, PartialEq)]
pub struct CompareSlot {
    pub model: String,
    pub status: String,
    pub text: Option<String>,
    pub error: Option<String>,
    pub attempt: u32,
    pub latency_ms: Option<u128>,
}

/// A slot waiting for `model`'s answer.
pub open spec fn running_slot(s: CompareSlot, model: Seq<char>) -> bool {
    &&& s.model@ == model
    &&& s.status@ == "running"@
    &&& s.text is None
    &&& s.error is None
    &&& s.attempt == 0
    &&& s.latency_ms is None
}

/// The slots of a run that starts: one per model, in order, each running.
pub fn running_slots(models: &Vec<String>) -> (r: Vec<CompareSlot>)
    ensures
        r@.len() == models@.len(),
        forall|i: int| 0 <= i < models@.len() ==> running_slot(#[trigger] r@[i], models@[i]@),
{
    let mut slots: Vec<CompareSlot> = Vec::new();
    let mut i: usize = 0;
    while i < models.len()
        invariant
            i <= models@.len(),
            slots@.len() == i,
            forall|j: int| 0 <= j < i ==> running_slot(#[trigger] slots@[j], models@[j]@),
        decreases models@.len() - i,
    {
        let model = string_from_chars(chars_of(models[i].as_str()).as_slice());
        slots.push(
            CompareSlot {
                model,
                status: owned("running"),
                text: None,
                error: None,
                attempt: 0,
                latency_ms: None,
            },
        );
        i = i + 1;
    }
    slots
}

/// Records `model`'s transcription in slot `index`: done, with the text,
/// the attempt and the latency, and no error; no slot there, no change.
pub fn apply_slot_success(
    slots: &mut Vec<CompareSlot>,
    index: usize,
    model: &str,
    success: TranscriptionSuccess,
)
    ensures
        final(slots)@.len() == old(slots)@.len(),
        forall|j: int| 0 <= j < old(slots)@.len() && j != index ==> #[trigger] final(slots)@[j] == old(slots)@[j],
        index < old(slots)@.len() ==> {
            let s = final(slots)@[index as int];
            &&& s.model@ == model@
            &&& s.status@ == "done"@
            &&& s.text == Some(success.text)
            &&& s.error is None
            &&& s.attempt == success.attempt
            &&& s.latency_ms == Some(success.latency_ms)
        },
{
    if index < slots.len() {
        let slot = CompareSlot {
            model: owned(model),
            status: owned("done"),
            text: Some(success.text),
            error: None,
            attempt: success.attempt,
            latency_ms: Some(success.latency_ms),
        };
        slots.set(index, slot);
    }
}

/// Records `model`'s failure in slot `index`: an error with the failure's
/// code, and no text; the attempt and latency stay; no slot there, no
/// change.
pub fn apply_slot_error(slots: &mut Vec<CompareSlot>, index: usize, model: &str, err: AppError)
    ensures
        final(slots)@.len() == old(slots)@.len(),
        forall|j: int| 0 <= j < old(slots)@.len() && j != index ==> #[trigger] final(slots)@[j] == old(slots)@[j],
        index < old(slots)@.len() ==> {
            let s = final(slots)@[index as int];
            let o = old(slots)@[index as int];
            &&& s.model@ == model@
            &&& s.status@ == "error"@
            &&& (s.error matches Some(c) && c@ == error_code(err))
            &&& s.text is None
            &&& s.attempt == o.attempt
            &&& s.latency_ms == o.latency_ms
        },
{
    if index < slots.len() {
        let attempt = slots[index].attempt;
        let latency_ms = slots[index].latency_ms;
        let slot = CompareSlot {
            model: owned(model),
            status: owned("error"),
            text: None,
            error: Some(owned(err.code())),
            attempt,
            latency_ms,
        };
        slots.set(index, slot);
    }
}

} // verus!
