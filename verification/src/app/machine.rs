//! The dictation session state machine: which events each state accepts and
//! where they lead.
use vstd::prelude::*;

use crate::error::{error_code, error_message, AppError};
use crate::text::{chars_of, decimal, extend_str, owned, push_decimal, string_from_chars};

verus! {

/// Where a dictation session stands.
#[derive(Debug, PartialEq, Eq)]
pub enum SessionState {
    Idle,
    StartingRecording,
    Recording,
    StoppingRecording,
    Saving,
    ProcessingAudio,
    Transcribing { attempt: u32 },
    RetryWaiting { attempt: u32, delay_ms: u64 },
    Completed,
    Failed { message: String, code: String },
}

/// The mathematical value of a `SessionState`: strings become character
/// sequences.
pub enum StateView {
    Idle,
    StartingRecording,
    Recording,
    StoppingRecording,
    Saving,
    ProcessingAudio,
    Transcribing { attempt: u32 },
    RetryWaiting { attempt: u32, delay_ms: u64 },
    Completed,
    Failed { message: Seq<char>, code: Seq<char> },
}

impl View for SessionState {
    type V = StateView;

    open spec fn view(&self) -> StateView {
        match self {
            SessionState::Idle => StateView::Idle,
            SessionState::StartingRecording => StateView::StartingRecording,
            SessionState::Recording => StateView::Recording,
            SessionState::StoppingRecording => StateView::StoppingRecording,
            SessionState::Saving => StateView::Saving,
            SessionState::ProcessingAudio => StateView::ProcessingAudio,
            SessionState::Transcribing { attempt } => StateView::Transcribing { attempt: *attempt },
            SessionState::RetryWaiting { attempt, delay_ms } => StateView::RetryWaiting {
                attempt: *attempt,
                delay_ms: *delay_ms,
            },
            SessionState::Completed => StateView::Completed,
            SessionState::Failed { message, code } => StateView::Failed {
                message: message@,
                code: code@,
            },
        }
    }
}

impl Clone for SessionState {
    fn clone(&self) -> (r: Self)
        ensures
            r == *self,
    {
        match self {
            SessionState::Idle => SessionState::Idle,
            SessionState::StartingRecording => SessionState::StartingRecording,
            SessionState::Recording => SessionState::Recording,
            SessionState::StoppingRecording => SessionState::StoppingRecording,
            SessionState::Saving => SessionState::Saving,
            SessionState::ProcessingAudio => SessionState::ProcessingAudio,
            SessionState::Transcribing { attempt } => SessionState::Transcribing { attempt: *attempt },
            SessionState::RetryWaiting { attempt, delay_ms } => SessionState::RetryWaiting {
                attempt: *attempt,
                delay_ms: *delay_ms,
            },
            SessionState::Completed => SessionState::Completed,
            SessionState::Failed { message, code } => SessionState::Failed {
                message: message.clone(),
                code: code.clone(),
            },
        }
    }
}

/// What happens to a session.
#[derive(Debug, PartialEq, Eq)]
pub enum SessionEvent {
    StartRequested,
    CaptureReady,
    CaptureFailed(AppError),
    StopRequested,
    Saved,
    SaveFailed(AppError),
    Processed,
    ProcessFailed(AppError),
    TranscriptAttemptStarted { attempt: u32 },
    RetryScheduled { attempt: u32, delay_ms: u64 },
    Succeeded,
    Failed(AppError),
    Dismiss,
    Cancelled,
    Shutdown,
}

impl Clone for SessionEvent {
    fn clone(&self) -> (r: Self)
        ensures
            r == *self,
    {
        match self {
            SessionEvent::StartRequested => SessionEvent::StartRequested,
            SessionEvent::CaptureReady => SessionEvent::CaptureReady,
            SessionEvent::CaptureFailed(e) => SessionEvent::CaptureFailed(e.clone()),
            SessionEvent::StopRequested => SessionEvent::StopRequested,
            SessionEvent::Saved => SessionEvent::Saved,
            SessionEvent::SaveFailed(e) => SessionEvent::SaveFailed(e.clone()),
            SessionEvent::Processed => SessionEvent::Processed,
            SessionEvent::ProcessFailed(e) => SessionEvent::ProcessFailed(e.clone()),
            SessionEvent::TranscriptAttemptStarted { attempt } => {
                SessionEvent::TranscriptAttemptStarted { attempt: *attempt }
            },
            SessionEvent::RetryScheduled { attempt, delay_ms } => SessionEvent::RetryScheduled {
                attempt: *attempt,
                delay_ms: *delay_ms,
            },
            SessionEvent::Succeeded => SessionEvent::Succeeded,
            SessionEvent::Failed(e) => SessionEvent::Failed(e.clone()),
            SessionEvent::Dismiss => SessionEvent::Dismiss,
            SessionEvent::Cancelled => SessionEvent::Cancelled,
            SessionEvent::Shutdown => SessionEvent::Shutdown,
        }
    }
}

/// An event that the state it arrived in does not accept.
#[derive(Debug, PartialEq, Eq)]
pub struct IllegalTransition {
    pub from: SessionState,
    pub event: String,
}

/// The name of an event's variant.
pub open spec fn event_name(e: SessionEvent) -> Seq<char> {
    match e {
        SessionEvent::StartRequested => "StartRequested"@,
        SessionEvent::CaptureReady => "CaptureReady"@,
        SessionEvent::CaptureFailed(_) => "CaptureFailed"@,
        SessionEvent::StopRequested => "StopRequested"@,
        SessionEvent::Saved => "Saved"@,
        SessionEvent::SaveFailed(_) => "SaveFailed"@,
        SessionEvent::Processed => "Processed"@,
        SessionEvent::ProcessFailed(_) => "ProcessFailed"@,
        SessionEvent::TranscriptAttemptStarted { .. } => "TranscriptAttemptStarted"@,
        SessionEvent::RetryScheduled { .. } => "RetryScheduled"@,
        SessionEvent::Succeeded => "Succeeded"@,
        SessionEvent::Failed(_) => "Failed"@,
        SessionEvent::Dismiss => "Dismiss"@,
        SessionEvent::Cancelled => "Cancelled"@,
        SessionEvent::Shutdown => "Shutdown"@,
    }
}

/// The escape `char::escape_debug` writes for a character.
pub uninterp spec fn char_debug_escape(c: char) -> Seq<char>;

/// `c.escape_debug()` collected into a string (std's `char::escape_debug`).
/// The contract only names the result: it is whatever std writes for `c`.
#[verifier::external_body]
fn escape_debug_char(c: char) -> (r: String)
    ensures
        r@ == char_debug_escape(c),
{
    c.escape_debug().to_string()
}

/// The text `Debug` writes for a duration of `ms` milliseconds.
pub uninterp spec fn duration_debug_text(ms: u64) -> Seq<char>;

/// `Debug` of `Duration::from_millis(ms)` (std's `impl Debug for
/// Duration`). The contract only names the result: it is whatever std
/// writes for that duration.
#[verifier::external_body]
fn duration_debug(ms: u64) -> (r: String)
    ensures
        r@ == duration_debug_text(ms),
{
    format!("{:?}", std::time::Duration::from_millis(ms))
}

/// How one character is written inside a quoted string, as `Debug` of a
/// string writes it: as `char::escape_debug` escapes it, except that a
/// single quote stays as it is.
pub open spec fn escaped_char(c: char) -> Seq<char> {
    if c == '\'' {
        seq![c]
    } else {
        char_debug_escape(c)
    }
}

/// A string as written between quotes.
pub open spec fn escaped(s: Seq<char>) -> Seq<char>
    decreases s.len(),
{
    if s.len() == 0 {
        seq![]
    } else {
        escaped(s.drop_last()) + escaped_char(s.last())
    }
}

fn push_escaped_char(v: &mut Vec<char>, c: char)
    ensures
        final(v)@ == old(v)@ + escaped_char(c),
{
    if c == '\'' {
        v.push(c);
    } else {
        let e = escape_debug_char(c);
        extend_str(v, e.as_str());
    }
}

/// Appends `s` quoted, with its characters escaped.
fn push_quoted(v: &mut Vec<char>, s: &str)
    ensures
        final(v)@ == old(v)@ + seq!['"'] + escaped(s@) + seq!['"'],
{
    let c = chars_of(s);
    let ghost start = v@;
    v.push('"');
    let mut i: usize = 0;
    while i < c.len()
        invariant
            i <= c@.len(),
            c@ == s@,
            v@ == start + seq!['"'] + escaped(c@.take(i as int)),
        decreases c@.len() - i,
    {
        proof {
            assert(c@.take(i + 1).drop_last() =~= c@.take(i as int));
            assert(c@.take(i + 1).last() == c@[i as int]);
        }
        push_escaped_char(v, c[i]);
        i = i + 1;
    }
    proof {
        assert(c@.take(c@.len() as int) =~= c@);
    }
    v.push('"');
}

/// How an error is written for the log: its variant name, followed by its
/// message quoted in brackets when it carries one.
pub open spec fn error_text(e: AppError) -> Seq<char> {
    match e {
        AppError::AudioCaptureFailed(m) => error_code(e) + seq!['(', '"'] + escaped(m@) + seq!['"', ')'],
        AppError::AudioProcessingFailed(m) => error_code(e) + seq!['(', '"'] + escaped(m@) + seq!['"', ')'],
        AppError::StorageFailed(m) => error_code(e) + seq!['(', '"'] + escaped(m@) + seq!['"', ')'],
        AppError::InvalidModel(m) => error_code(e) + seq!['(', '"'] + escaped(m@) + seq!['"', ')'],
        AppError::RequestValidationFailed(m) => error_code(e) + seq!['(', '"'] + escaped(m@) + seq!['"', ')'],
        AppError::ConnectionFailed(m) => error_code(e) + seq!['(', '"'] + escaped(m@) + seq!['"', ')'],
        AppError::TextInsertionFailed(m) => error_code(e) + seq!['(', '"'] + escaped(m@) + seq!['"', ')'],
        AppError::HotkeyFailed(m) => error_code(e) + seq!['(', '"'] + escaped(m@) + seq!['"', ')'],
        AppError::IllegalTransition(m) => error_code(e) + seq!['(', '"'] + escaped(m@) + seq!['"', ')'],
        _ => error_code(e),
    }
}

fn push_error_text(v: &mut Vec<char>, e: &AppError)
    ensures
        final(v)@ == old(v)@ + error_text(*e),
{
    let ghost start = v@;
    extend_str(v, e.code());
    let msg: Option<&String> = match e {
        AppError::AudioCaptureFailed(m) => Some(m),
        AppError::AudioProcessingFailed(m) => Some(m),
        AppError::StorageFailed(m) => Some(m),
        AppError::InvalidModel(m) => Some(m),
        AppError::RequestValidationFailed(m) => Some(m),
        AppError::ConnectionFailed(m) => Some(m),
        AppError::TextInsertionFailed(m) => Some(m),
        AppError::HotkeyFailed(m) => Some(m),
        AppError::IllegalTransition(m) => Some(m),
        _ => None,
    };
    if let Some(m) = msg {
        v.push('(');
        push_quoted(v, m.as_str());
        v.push(')');
        proof {
            assert(v@ =~= start + error_code(*e) + seq!['(', '"'] + escaped(m@) + seq!['"', ')']);
        }
    }
}

/// How an event is written for the log, as `Debug` writes it: the variant
/// name, then the carried error in brackets, or the named fields in braces
/// (a retry's wait as the `Debug` text of its duration, under `delay`).
pub open spec fn event_text(e: SessionEvent) -> Seq<char> {
    match e {
        SessionEvent::CaptureFailed(err) => event_name(e) + seq!['('] + error_text(err) + seq![')'],
        SessionEvent::SaveFailed(err) => event_name(e) + seq!['('] + error_text(err) + seq![')'],
        SessionEvent::ProcessFailed(err) => event_name(e) + seq!['('] + error_text(err) + seq![')'],
        SessionEvent::Failed(err) => event_name(e) + seq!['('] + error_text(err) + seq![')'],
        SessionEvent::TranscriptAttemptStarted { attempt } => event_name(e) + " { attempt: "@
            + decimal(attempt as nat) + " }"@,
        SessionEvent::RetryScheduled { attempt, delay_ms } => event_name(e) + " { attempt: "@
            + decimal(attempt as nat) + ", delay: "@ + duration_debug_text(delay_ms) + " }"@,
        _ => event_name(e),
    }
}

fn event_label(e: &SessionEvent) -> (r: String)
    ensures
        r@ == event_text(*e),
{
    let s: &str = match e {
        SessionEvent::StartRequested => "StartRequested",
        SessionEvent::CaptureReady => "CaptureReady",
        SessionEvent::CaptureFailed(_) => "CaptureFailed",
        SessionEvent::StopRequested => "StopRequested",
        SessionEvent::Saved => "Saved",
        SessionEvent::SaveFailed(_) => "SaveFailed",
        SessionEvent::Processed => "Processed",
        SessionEvent::ProcessFailed(_) => "ProcessFailed",
        SessionEvent::TranscriptAttemptStarted { .. } => "TranscriptAttemptStarted",
        SessionEvent::RetryScheduled { .. } => "RetryScheduled",
        SessionEvent::Succeeded => "Succeeded",
        SessionEvent::Failed(_) => "Failed",
        SessionEvent::Dismiss => "Dismiss",
        SessionEvent::Cancelled => "Cancelled",
        SessionEvent::Shutdown => "Shutdown",
    };
    let mut v: Vec<char> = Vec::new();
    extend_str(&mut v, s);
    let ghost name = v@;
    match e {
        SessionEvent::CaptureFailed(err) | SessionEvent::SaveFailed(err) | SessionEvent::ProcessFailed(
            err,
        ) | SessionEvent::Failed(err) => {
            v.push('(');
            push_error_text(&mut v, err);
            v.push(')');
            proof {
                assert(v@ =~= name + seq!['('] + error_text(*err) + seq![')']);
            }
        },
        SessionEvent::TranscriptAttemptStarted { attempt } => {
            extend_str(&mut v, " { attempt: ");
            push_decimal(&mut v, *attempt as u128);
            extend_str(&mut v, " }");
        },
        SessionEvent::RetryScheduled { attempt, delay_ms } => {
            extend_str(&mut v, " { attempt: ");
            push_decimal(&mut v, *attempt as u128);
            extend_str(&mut v, ", delay: ");
            let d = duration_debug(*delay_ms);
            extend_str(&mut v, d.as_str());
            extend_str(&mut v, " }");
        },
        _ => {},
    }
    string_from_chars(v.as_slice())
}

/// The failed state that an error leads to.
pub open spec fn failed_view(err: AppError) -> StateView {
    StateView::Failed { message: error_message(err), code: error_code(err) }
}

/// The states from which a session may be abandoned on shutdown.
pub open spec fn abandonable(s: StateView) -> bool {
    match s {
        StateView::StartingRecording | StateView::StoppingRecording | StateView::Saving
        | StateView::ProcessingAudio | StateView::Transcribing { .. } | StateView::RetryWaiting {
            ..
        } => true,
        _ => false,
    }
}

/// The transition table: the next state, or `None` when the state does not
/// accept the event.
pub open spec fn next_state(s: StateView, e: SessionEvent) -> Option<StateView> {
    match (s, e) {
        (StateView::Idle, SessionEvent::StartRequested) => Some(StateView::StartingRecording),
        (StateView::StartingRecording, SessionEvent::CaptureReady) => Some(StateView::Recording),
        (StateView::StartingRecording, SessionEvent::CaptureFailed(err)) => Some(failed_view(err)),
        (StateView::StartingRecording, SessionEvent::Failed(err)) => Some(failed_view(err)),
        (StateView::StartingRecording, SessionEvent::Cancelled) => Some(StateView::Idle),
        (StateView::StartingRecording, SessionEvent::StopRequested) => Some(
            StateView::StoppingRecording,
        ),
        (StateView::StartingRecording, SessionEvent::Shutdown) => Some(StateView::Idle),
        (StateView::Recording, SessionEvent::StopRequested) => Some(StateView::StoppingRecording),
        (StateView::Recording, SessionEvent::CaptureFailed(err)) => Some(failed_view(err)),
        (StateView::Recording, SessionEvent::Failed(err)) => Some(failed_view(err)),
        (StateView::Recording, SessionEvent::Cancelled) => Some(StateView::Idle),
        (StateView::Recording, SessionEvent::Shutdown) => Some(StateView::StoppingRecording),
        (StateView::Idle, SessionEvent::TranscriptAttemptStarted { attempt }) => Some(
            StateView::Transcribing { attempt },
        ),
        (StateView::Failed { .. }, SessionEvent::TranscriptAttemptStarted { attempt }) => Some(
            StateView::Transcribing { attempt },
        ),
        (StateView::StoppingRecording, SessionEvent::Saved) => Some(StateView::Saving),
        (StateView::StoppingRecording, SessionEvent::SaveFailed(err)) => Some(failed_view(err)),
        (StateView::StoppingRecording, SessionEvent::Failed(err)) => Some(failed_view(err)),
        (StateView::StoppingRecording, SessionEvent::Cancelled) => Some(StateView::Idle),
        (StateView::Saving, SessionEvent::Saved) => Some(StateView::ProcessingAudio),
        (StateView::Saving, SessionEvent::SaveFailed(err)) => Some(failed_view(err)),
        (StateView::Saving, SessionEvent::Failed(err)) => Some(failed_view(err)),
        (StateView::Saving, SessionEvent::Cancelled) => Some(StateView::Idle),
        (StateView::ProcessingAudio, SessionEvent::Processed) => Some(
            StateView::Transcribing { attempt: 1 },
        ),
        (StateView::ProcessingAudio, SessionEvent::ProcessFailed(err)) => Some(failed_view(err)),
        (StateView::ProcessingAudio, SessionEvent::Failed(err)) => Some(failed_view(err)),
        (StateView::ProcessingAudio, SessionEvent::Cancelled) => Some(StateView::Idle),
        (StateView::Transcribing { .. }, SessionEvent::TranscriptAttemptStarted { attempt }) => Some(
            StateView::Transcribing { attempt },
        ),
        (StateView::Transcribing { .. }, SessionEvent::RetryScheduled { attempt, delay_ms }) => Some(
            StateView::RetryWaiting { attempt, delay_ms },
        ),
        (StateView::Transcribing { .. }, SessionEvent::Succeeded) => Some(StateView::Completed),
        (StateView::Transcribing { .. }, SessionEvent::Failed(err)) => Some(failed_view(err)),
        (StateView::Transcribing { .. }, SessionEvent::Cancelled) => Some(StateView::Idle),
        (StateView::RetryWaiting { .. }, SessionEvent::TranscriptAttemptStarted { attempt }) => Some(
            StateView::Transcribing { attempt },
        ),
        (StateView::RetryWaiting { .. }, SessionEvent::Failed(err)) => Some(failed_view(err)),
        (StateView::RetryWaiting { .. }, SessionEvent::Cancelled) => Some(StateView::Idle),
        (StateView::RetryWaiting { .. }, SessionEvent::Succeeded) => Some(StateView::Completed),
        (StateView::Completed, SessionEvent::Dismiss) => Some(StateView::Idle),
        (StateView::Failed { .. }, SessionEvent::Dismiss) => Some(StateView::Idle),
        (StateView::Failed { .. }, SessionEvent::StartRequested) => Some(
            StateView::StartingRecording,
        ),
        (StateView::Completed, SessionEvent::StartRequested) => Some(StateView::StartingRecording),
        (StateView::Idle, SessionEvent::Dismiss) => Some(StateView::Idle),
        (StateView::Idle, SessionEvent::Shutdown) => Some(StateView::Idle),
        (StateView::Failed { .. }, SessionEvent::Shutdown) => Some(StateView::Idle),
        (StateView::Completed, SessionEvent::Shutdown) => Some(StateView::Idle),
        (_, SessionEvent::Shutdown) => if abandonable(s) {
            Some(StateView::Idle)
        } else {
            None
        },
        _ => None,
    }
}

fn failed(err: &AppError) -> (r: SessionState)
    ensures
        r@ == failed_view(*err),
{
    SessionState::Failed { message: err.user_message(), code: owned(err.code()) }
}

fn can_abandon(state: &SessionState) -> (r: bool)
    ensures
        r == abandonable(state@),
{
    match state {
        SessionState::StartingRecording | SessionState::StoppingRecording | SessionState::Saving
        | SessionState::ProcessingAudio | SessionState::Transcribing { .. }
        | SessionState::RetryWaiting { .. } => true,
        _ => false,
    }
}

/// Applies `event` to `state`: the next state as the transition table gives
/// it, or the refusal, which keeps the state and writes out the event.
pub fn apply_event(state: SessionState, event: SessionEvent) -> (r: Result<
    SessionState,
    IllegalTransition,
>)
    ensures
        match r {
            Ok(next) => next_state(state@, event) == Some(next@),
            Err(ill) => next_state(state@, event) is None && ill.from == state && ill.event@
                == event_text(event),
        },
{
    let next = match (&state, &event) {
        (SessionState::Idle, SessionEvent::StartRequested) => SessionState::StartingRecording,
        (SessionState::StartingRecording, SessionEvent::CaptureReady) => SessionState::Recording,
        (SessionState::StartingRecording, SessionEvent::CaptureFailed(err)) => failed(err),
        (SessionState::StartingRecording, SessionEvent::Failed(err)) => failed(err),
        (SessionState::StartingRecording, SessionEvent::Cancelled) => SessionState::Idle,
        (SessionState::StartingRecording, SessionEvent::StopRequested) => {
            SessionState::StoppingRecording
        },
        (SessionState::StartingRecording, SessionEvent::Shutdown) => SessionState::Idle,
        (SessionState::Recording, SessionEvent::StopRequested) => SessionState::StoppingRecording,
        (SessionState::Recording, SessionEvent::CaptureFailed(err)) => failed(err),
        (SessionState::Recording, SessionEvent::Failed(err)) => failed(err),
        (SessionState::Recording, SessionEvent::Cancelled) => SessionState::Idle,
        (SessionState::Recording, SessionEvent::Shutdown) => SessionState::StoppingRecording,
        (SessionState::Idle, SessionEvent::TranscriptAttemptStarted { attempt }) => {
            SessionState::Transcribing { attempt: *attempt }
        },
        (SessionState::Failed { .. }, SessionEvent::TranscriptAttemptStarted { attempt }) => {
            SessionState::Transcribing { attempt: *attempt }
        },
        (SessionState::StoppingRecording, SessionEvent::Saved) => SessionState::Saving,
        (SessionState::StoppingRecording, SessionEvent::SaveFailed(err)) => failed(err),
        (SessionState::StoppingRecording, SessionEvent::Failed(err)) => failed(err),
        (SessionState::StoppingRecording, SessionEvent::Cancelled) => SessionState::Idle,
        (SessionState::Saving, SessionEvent::Saved) => SessionState::ProcessingAudio,
        (SessionState::Saving, SessionEvent::SaveFailed(err)) => failed(err),
        (SessionState::Saving, SessionEvent::Failed(err)) => failed(err),
        (SessionState::Saving, SessionEvent::Cancelled) => SessionState::Idle,
        (SessionState::ProcessingAudio, SessionEvent::Processed) => {
            SessionState::Transcribing { attempt: 1 }
        },
        (SessionState::ProcessingAudio, SessionEvent::ProcessFailed(err)) => failed(err),
        (SessionState::ProcessingAudio, SessionEvent::Failed(err)) => failed(err),
        (SessionState::ProcessingAudio, SessionEvent::Cancelled) => SessionState::Idle,
        (SessionState::Transcribing { .. }, SessionEvent::TranscriptAttemptStarted { attempt }) => {
            SessionState::Transcribing { attempt: *attempt }
        },
        (SessionState::Transcribing { .. }, SessionEvent::RetryScheduled { attempt, delay_ms }) => {
            SessionState::RetryWaiting { attempt: *attempt, delay_ms: *delay_ms }
        },
        (SessionState::Transcribing { .. }, SessionEvent::Succeeded) => SessionState::Completed,
        (SessionState::Transcribing { .. }, SessionEvent::Failed(err)) => failed(err),
        (SessionState::Transcribing { .. }, SessionEvent::Cancelled) => SessionState::Idle,
        (SessionState::RetryWaiting { .. }, SessionEvent::TranscriptAttemptStarted { attempt }) => {
            SessionState::Transcribing { attempt: *attempt }
        },
        (SessionState::RetryWaiting { .. }, SessionEvent::Failed(err)) => failed(err),
        (SessionState::RetryWaiting { .. }, SessionEvent::Cancelled) => SessionState::Idle,
        (SessionState::RetryWaiting { .. }, SessionEvent::Succeeded) => SessionState::Completed,
        (SessionState::Completed, SessionEvent::Dismiss) => SessionState::Idle,
        (SessionState::Failed { .. }, SessionEvent::Dismiss) => SessionState::Idle,
        (SessionState::Failed { .. }, SessionEvent::StartRequested) => {
            SessionState::StartingRecording
        },
        (SessionState::Completed, SessionEvent::StartRequested) => SessionState::StartingRecording,
        (SessionState::Idle, SessionEvent::Dismiss) => SessionState::Idle,
        (SessionState::Idle, SessionEvent::Shutdown) => SessionState::Idle,
        (SessionState::Failed { .. }, SessionEvent::Shutdown) => SessionState::Idle,
        (SessionState::Completed, SessionEvent::Shutdown) => SessionState::Idle,
        (_, SessionEvent::Shutdown) if can_abandon(&state) => SessionState::Idle,
        _ => {
            let name = event_label(&event);
            return Err(IllegalTransition { from: state, event: name });
        },
    };
    Ok(next)
}

/// The states in which audio capture is starting, running or stopping.
pub open spec fn recording_active(s: StateView) -> bool {
    match s {
        StateView::StartingRecording | StateView::Recording | StateView::StoppingRecording => true,
        _ => false,
    }
}

/// Whether capture is starting, running or stopping.
pub fn is_recording_active(state: &SessionState) -> (r: bool)
    ensures
        r == recording_active(state@),
{
    match state {
        SessionState::StartingRecording | SessionState::Recording
        | SessionState::StoppingRecording => true,
        _ => false,
    }
}

/// What the dictation hotkey does in a given state.
#[derive(Debug, Clone, Copy, PartialEq, Eq)]
pub enum ToggleHotkeyAction {
    Start,
    Stop,
    Cancel,
    Ignore,
}

/// The hotkey's action in each state: start when at rest, stop while
/// capturing, cancel while the recording is being handled.
pub open spec fn hotkey_action(s: StateView) -> ToggleHotkeyAction {
    match s {
        StateView::Idle | StateView::Failed { .. } | StateView::Completed => ToggleHotkeyAction::Start,
        StateView::StartingRecording | StateView::Recording => ToggleHotkeyAction::Stop,
        _ => ToggleHotkeyAction::Cancel,
    }
}

/// The action of the dictation hotkey in `state`.
pub fn toggle_hotkey_action(state: &SessionState) -> (r: ToggleHotkeyAction)
    ensures
        r == hotkey_action(state@),
{
    match state {
        SessionState::Idle | SessionState::Failed { .. } | SessionState::Completed => {
            ToggleHotkeyAction::Start
        },
        SessionState::StartingRecording | SessionState::Recording => ToggleHotkeyAction::Stop,
        SessionState::StoppingRecording | SessionState::Saving | SessionState::ProcessingAudio
        | SessionState::Transcribing { .. } | SessionState::RetryWaiting { .. } => {
            ToggleHotkeyAction::Cancel
        },
    }
}

/// The states a user can cancel: every state between a start request and the
/// end of transcription.
pub open spec fn cancellable(s: StateView) -> bool {
    match s {
        StateView::Idle | StateView::Completed | StateView::Failed { .. } => false,
        _ => true,
    }
}

/// Whether the session can be cancelled in `state`.
pub fn is_cancellable(state: &SessionState) -> (r: bool)
    ensures
        r == cancellable(state@),
{
    match state {
        SessionState::StartingRecording | SessionState::Recording | SessionState::StoppingRecording
        | SessionState::Saving | SessionState::ProcessingAudio | SessionState::Transcribing { .. }
        | SessionState::RetryWaiting { .. } => true,
        _ => false,
    }
}

/// Whether work started under `started_generation` may still commit its
/// result.
pub fn may_commit_session(started_generation: u64, current_generation: u64, cancelled: bool) -> (r:
    bool)
    ensures
        r == (!cancelled && started_generation == current_generation),
{
    !cancelled && started_generation == current_generation
}

// ---------------------------------------------------------------------------
// Laws of the session machine
// ---------------------------------------------------------------------------
/// Cancelling is accepted exactly in the cancellable states, and always
/// returns the session to `Idle`.
pub proof fn law_cancel_returns_idle(s: StateView)
    ensures
        cancellable(s) <==> next_state(s, SessionEvent::Cancelled) is Some,
        cancellable(s) ==> next_state(s, SessionEvent::Cancelled) == Some(StateView::Idle),
{
}

/// A new recording can start only from `Idle`, `Completed` or `Failed`; in
/// particular a second start while one is running is refused.
pub proof fn law_start_only_at_rest(s: StateView)
    ensures
        next_state(s, SessionEvent::StartRequested) is Some <==> !cancellable(s),
        next_state(s, SessionEvent::StartRequested) is Some ==> next_state(
            s,
            SessionEvent::StartRequested,
        ) == Some(StateView::StartingRecording),
{
}

/// Shutdown is accepted in every state; it stops a running capture and
/// otherwise returns the session to `Idle`.
pub proof fn law_shutdown_always_accepted(s: StateView)
    ensures
        next_state(s, SessionEvent::Shutdown) == Some(
            if s is Recording {
                StateView::StoppingRecording
            } else {
                StateView::Idle
            },
        ),
{
}

/// The hotkey never does nothing, and what it does is always a transition
/// the current state accepts.
pub proof fn law_hotkey_action_is_legal(s: StateView)
    ensures
        hotkey_action(s) != ToggleHotkeyAction::Ignore,
        hotkey_action(s) == ToggleHotkeyAction::Start ==> next_state(
            s,
            SessionEvent::StartRequested,
        ) is Some,
        hotkey_action(s) == ToggleHotkeyAction::Stop ==> next_state(
            s,
            SessionEvent::StopRequested,
        ) is Some,
        hotkey_action(s) == ToggleHotkeyAction::Cancel ==> next_state(
            s,
            SessionEvent::Cancelled,
        ) is Some,
{
}

/// Every failure event that a state accepts leads to `Failed`, carrying the
/// error's code and user message.
pub proof fn law_failure_records_code(s: StateView, err: AppError)
    ensures
        next_state(s, SessionEvent::Failed(err)) is Some ==> next_state(
            s,
            SessionEvent::Failed(err),
        ) == Some(failed_view(err)),
        next_state(s, SessionEvent::Failed(err)) is Some <==> cancellable(s),
{
}

/// A session completes only when a transcription attempt succeeds: the
/// only way into `Completed` is `Succeeded` while transcribing or waiting
/// to retry.
pub proof fn law_completion_needs_success(s: StateView, e: SessionEvent)
    ensures
        next_state(s, e) == Some(StateView::Completed) <==> (e is Succeeded && (s is Transcribing
            || s is RetryWaiting)),
{
}

/// Every failure a state accepts, whatever stage reports it, leaves the
/// session failed with that error's code and message.
pub proof fn law_failures_keep_their_error(s: StateView, err: AppError)
    ensures
        next_state(s, SessionEvent::CaptureFailed(err)) matches Some(t) ==> t == failed_view(err),
        next_state(s, SessionEvent::SaveFailed(err)) matches Some(t) ==> t == failed_view(err),
        next_state(s, SessionEvent::ProcessFailed(err)) matches Some(t) ==> t == failed_view(err),
        next_state(s, SessionEvent::Failed(err)) matches Some(t) ==> t == failed_view(err),
{
}

/// A session at rest, idle or showing a failure, accepts a new
/// transcription attempt (a retry from history) and shows it as that
/// attempt, whatever the failure said.
pub proof fn law_rest_accepts_new_attempt(message: Seq<char>, code: Seq<char>, attempt: u32)
    ensures
        next_state(StateView::Failed { message, code }, SessionEvent::TranscriptAttemptStarted { attempt })
            == Some(StateView::Transcribing { attempt }),
        next_state(StateView::Idle, SessionEvent::TranscriptAttemptStarted { attempt }) == Some(
            StateView::Transcribing { attempt },
        ),
{
}

/// A dictation runs its course: from rest, a start, a ready capture, a
/// stop, the two saves, the processed audio, a retry scheduled and its new
/// attempt, and a success lead through recording, saving, processing and
/// transcribing (starting at attempt 1) to completion, which is dismissed
/// back to rest; a finished session, completed or failed, can start again.
pub proof fn law_dictation_runs_its_course(attempt: u32, delay_ms: u64, message: Seq<char>, code: Seq<char>)
    ensures
        next_state(StateView::Idle, SessionEvent::StartRequested) == Some(StateView::StartingRecording),
        next_state(StateView::StartingRecording, SessionEvent::CaptureReady) == Some(StateView::Recording),
        next_state(StateView::Recording, SessionEvent::StopRequested) == Some(StateView::StoppingRecording),
        next_state(StateView::StoppingRecording, SessionEvent::Saved) == Some(StateView::Saving),
        next_state(StateView::Saving, SessionEvent::Saved) == Some(StateView::ProcessingAudio),
        next_state(StateView::ProcessingAudio, SessionEvent::Processed) == Some(
            StateView::Transcribing { attempt: 1 },
        ),
        next_state(StateView::Transcribing { attempt }, SessionEvent::RetryScheduled { attempt, delay_ms })
            == Some(StateView::RetryWaiting { attempt, delay_ms }),
        next_state(
            StateView::RetryWaiting { attempt, delay_ms },
            SessionEvent::TranscriptAttemptStarted { attempt },
        ) == Some(StateView::Transcribing { attempt }),
        next_state(StateView::Transcribing { attempt }, SessionEvent::Succeeded) == Some(
            StateView::Completed,
        ),
        next_state(StateView::Completed, SessionEvent::Dismiss) == Some(StateView::Idle),
        next_state(StateView::Completed, SessionEvent::StartRequested) == Some(
            StateView::StartingRecording,
        ),
        next_state(StateView::Failed { message, code }, SessionEvent::StartRequested) == Some(
            StateView::StartingRecording,
        ),
        next_state(StateView::Failed { message, code }, SessionEvent::Dismiss) == Some(StateView::Idle),
{
}

} // verus!
