//! Retry policy for transcription requests: which failures are retried, how
//! long to wait, and when to give up.
use vstd::prelude::*;

use crate::error::AppError;
use crate::text::{chars_of, contains, contains_str, decimal, extend_str, lower, lower_of,
    parse_u64, parse_unsigned, push_decimal, string_from_chars, trim, trim_of};

verus! {

/// The retry budget of one transcription, in milliseconds.
#[derive(Debug, Clone, PartialEq, Eq)]
pub struct RetryPolicy {
    pub automatic_retries: bool,
    pub additional_retries: u32,
    pub connect_timeout_ms: u64,
    pub request_timeout_ms: u64,
    pub initial_retry_delay_ms: u64,
    pub max_retry_delay_ms: u64,
    pub total_operation_timeout_ms: u64,
}

impl Default for RetryPolicy {
    fn default() -> (r: Self)
        ensures
            r.automatic_retries,
            r.additional_retries == 3,
            r.connect_timeout_ms == 8_000,
            r.request_timeout_ms == 20_000,
            r.initial_retry_delay_ms == 500,
            r.max_retry_delay_ms == 3_000,
            r.total_operation_timeout_ms == 720_000,
    {
        RetryPolicy {
            automatic_retries: true,
            additional_retries: 3,
            connect_timeout_ms: 8_000,
            request_timeout_ms: 20_000,
            initial_retry_delay_ms: 500,
            max_retry_delay_ms: 3_000,
            total_operation_timeout_ms: 12 * 60 * 1000,
        }
    }
}

/// The longest request timeout, however long the audio: 15 minutes.
pub const MAX_REQUEST_TIMEOUT_MS: u64 = 15 * 60 * 1000;

impl RetryPolicy {
    /// The policy can count its attempts in a `u32`.
    pub open spec fn wf(&self) -> bool {
        self.automatic_retries ==> self.additional_retries < u32::MAX
    }

    /// Attempts allowed in all: the first plus the additional retries when
    /// automatic retries are on.
    pub open spec fn attempts(&self) -> int {
        if self.automatic_retries {
            1 + self.additional_retries
        } else {
            1
        }
    }

    /// The number of attempts allowed.
    pub fn max_attempts(&self) -> (r: u32)
        requires
            self.wf(),
        ensures
            r == self.attempts(),
    {
        if self.automatic_retries {
            1 + self.additional_retries
        } else {
            1
        }
    }

    /// The request timeout for audio of `audio_ms`: 20 s plus 2.5 times the
    /// audio, at least the configured timeout, at most 15 minutes.
    pub open spec fn scaled_timeout(&self, audio_ms: u64) -> int {
        let from_audio = 20_000 + (audio_ms * 5) / 2;
        let scaled = if self.request_timeout_ms >= from_audio {
            self.request_timeout_ms as int
        } else {
            from_audio
        };
        if scaled <= MAX_REQUEST_TIMEOUT_MS {
            scaled
        } else {
            MAX_REQUEST_TIMEOUT_MS as int
        }
    }

    /// The request timeout, in milliseconds, for audio of `audio_ms`.
    pub fn scaled_request_timeout(&self, audio_ms: u64) -> (r: u64)
        ensures
            r == self.scaled_timeout(audio_ms),
    {
        let extra: u128 = (audio_ms as u128) * 5 / 2;
        let from_audio: u128 = 20_000 + extra;
        let scaled: u128 = if (self.request_timeout_ms as u128) >= from_audio {
            self.request_timeout_ms as u128
        } else {
            from_audio
        };
        if scaled <= MAX_REQUEST_TIMEOUT_MS as u128 {
            scaled as u64
        } else {
            MAX_REQUEST_TIMEOUT_MS
        }
    }
}

/// Whether a failure may be retried.
#[derive(Debug, Clone, Copy, PartialEq, Eq, Structural)]
pub enum RetryClass {
    Retryable,
    Terminal,
}

/// A failure with its retry class, HTTP status and server-requested delay.
#[derive(Debug, PartialEq, Eq)]
pub struct ClassifiedError {
    pub class: RetryClass,
    pub error: AppError,
    pub http_status: Option<u16>,
    pub retry_after_ms: Option<u64>,
}

/// `HTTP <status>`.
pub open spec fn http_label(status: u16) -> Seq<char> {
    "HTTP "@ + decimal(status as nat)
}

fn http_label_exec(status: u16) -> (r: String)
    ensures
        r@ == http_label(status),
{
    let mut v: Vec<char> = Vec::new();
    extend_str(&mut v, "HTTP ");
    push_decimal(&mut v, status as u128);
    string_from_chars(v.as_slice())
}

/// The classification of a bare HTTP status.
pub open spec fn status_class(status: u16) -> RetryClass {
    if status == 408 || status == 429 || (500 <= status < 600) {
        RetryClass::Retryable
    } else {
        RetryClass::Terminal
    }
}

/// The error a bare HTTP status maps to.
pub open spec fn status_error(status: u16) -> AppError {
    if status == 408 {
        AppError::RequestTimeout
    } else if status == 429 {
        AppError::RateLimited
    } else if 502 <= status <= 504 {
        AppError::ProviderUnavailable
    } else if 500 <= status < 600 {
        AppError::OpenRouterServerError
    } else if status == 401 || status == 403 {
        AppError::InvalidApiKey
    } else if status == 413 {
        AppError::RecordingTooLarge
    } else {
        AppError::RequestValidationFailed(arbitrary())
    }
}

/// `e` is the error that `status` maps to (a validation failure carries the
/// text `HTTP <status>`).
pub open spec fn is_status_error(e: AppError, status: u16) -> bool {
    match status_error(status) {
        AppError::RequestValidationFailed(_) => e matches AppError::RequestValidationFailed(m) && m@
            == http_label(status),
        other => e == other,
    }
}

/// Classifies an HTTP status: timeouts, rate limits and 5xx are retried
/// (keeping the server's `Retry-After`); everything else is terminal.
pub fn classify_http_status(status: u16, retry_after_ms: Option<u64>) -> (r: ClassifiedError)
    ensures
        r.class == status_class(status),
        is_status_error(r.error, status),
        r.http_status == Some(status),
        r.retry_after_ms == if status_class(status) == RetryClass::Retryable {
            retry_after_ms
        } else {
            None
        },
{
    if status == 408 || status == 429 || status == 500 || status == 502 || status == 503 || status
        == 504 {
        let error = if status == 408 {
            AppError::RequestTimeout
        } else if status == 429 {
            AppError::RateLimited
        } else if 502 <= status && status <= 504 {
            AppError::ProviderUnavailable
        } else {
            AppError::OpenRouterServerError
        };
        ClassifiedError {
            class: RetryClass::Retryable,
            error,
            http_status: Some(status),
            retry_after_ms,
        }
    } else if status == 401 || status == 403 {
        ClassifiedError {
            class: RetryClass::Terminal,
            error: AppError::InvalidApiKey,
            http_status: Some(status),
            retry_after_ms: None,
        }
    } else if status == 400 || status == 404 || status == 413 || status == 422 {
        ClassifiedError {
            class: RetryClass::Terminal,
            error: if status == 413 {
                AppError::RecordingTooLarge
            } else {
                AppError::RequestValidationFailed(http_label_exec(status))
            },
            http_status: Some(status),
            retry_after_ms: None,
        }
    } else if 500 <= status && status < 600 {
        ClassifiedError {
            class: RetryClass::Retryable,
            error: AppError::OpenRouterServerError,
            http_status: Some(status),
            retry_after_ms,
        }
    } else {
        ClassifiedError {
            class: RetryClass::Terminal,
            error: AppError::RequestValidationFailed(http_label_exec(status)),
            http_status: Some(status),
            retry_after_ms: None,
        }
    }
}

/// The response body says the provider could not serve the request.
pub open spec fn provider_gap(l: Seq<char>) -> bool {
    contains(l, "could not be reached"@) || contains(l, "no available"@) || contains(
        l,
        "overloaded"@,
    ) || contains(l, "no endpoints"@) || contains(l, "provider returned error"@)
}

/// The response body says the model does not exist.
pub open spec fn model_missing(l: Seq<char>) -> bool {
    contains(l, "invalid model"@) || contains(l, "model not found"@) || contains(
        l,
        "does not exist"@,
    )
}

/// At most the first 400 characters of `body`, with `...` when cut.
pub open spec fn truncated(body: Seq<char>) -> Seq<char> {
    if body.len() > 400 {
        body.take(400) + "..."@
    } else {
        body
    }
}

/// The body, cut to 400 characters (then `...`) for error messages.
pub fn truncated_body(body: &str) -> (r: String)
    ensures
        r@ == truncated(body@),
{
    let c = chars_of(body);
    if c.len() > 400 {
        let mut v = crate::text::slice_chars(c.as_slice(), 0, 400);
        extend_str(&mut v, "...");
        string_from_chars(v.as_slice())
    } else {
        string_from_chars(c.as_slice())
    }
}

/// `c` classifies an HTTP failure with `status`, the server's
/// `Retry-After` and the response body: a provider gap (outside 401/403)
/// is retryable; a missing model (on 400, 404 or 422) is terminal and
/// carries the truncated body; anything else goes by the status.
pub open spec fn http_classified(c: ClassifiedError, status: u16, retry_after_ms: Option<u64>, body: Seq<char>) -> bool {
    &&& c.http_status == Some(status)
    &&& ({
        let l = lower(body);
        if provider_gap(l) && status != 401 && status != 403 {
            c.class == RetryClass::Retryable && c.error == AppError::ProviderUnavailable
                && c.retry_after_ms == retry_after_ms
        } else if (status == 400 || status == 404 || status == 422) && model_missing(l) {
            c.class == RetryClass::Terminal && c.retry_after_ms is None && (c.error matches AppError::InvalidModel(m) && m@
                == truncated(body))
        } else {
            c.class == status_class(status) && is_status_error(c.error, status)
                && c.retry_after_ms == if status_class(status) == RetryClass::Retryable {
                retry_after_ms
            } else {
                None
            }
        }
    })
}

/// Classifies an HTTP failure with its body: a provider gap is retried
/// unless the key was refused; a missing model on 400/404/422 is terminal;
/// otherwise the status decides.
pub fn classify_http(status: u16, retry_after_ms: Option<u64>, body: &str) -> (r: ClassifiedError)
    ensures
        http_classified(r, status, retry_after_ms, body@),
{
    let l = lower_of(body);
    let gap = contains_str(l.as_slice(), "could not be reached") || contains_str(
        l.as_slice(),
        "no available",
    ) || contains_str(l.as_slice(), "overloaded") || contains_str(l.as_slice(), "no endpoints")
        || contains_str(l.as_slice(), "provider returned error");
    if gap && status != 401 && status != 403 {
        return ClassifiedError {
            class: RetryClass::Retryable,
            error: AppError::ProviderUnavailable,
            http_status: Some(status),
            retry_after_ms,
        };
    }
    if (status == 400 || status == 404 || status == 422) && (contains_str(
        l.as_slice(),
        "invalid model",
    ) || contains_str(l.as_slice(), "model not found") || contains_str(
        l.as_slice(),
        "does not exist",
    )) {
        return ClassifiedError {
            class: RetryClass::Terminal,
            error: AppError::InvalidModel(truncated_body(body)),
            http_status: Some(status),
            retry_after_ms: None,
        };
    }
    classify_http_status(status, retry_after_ms)
}

/// Where a transport failure happened.
#[derive(Debug, Clone, Copy, PartialEq, Eq, Structural)]
pub enum TransportCategory {
    TlsTrust,
    ConnectEof,
    Timeout,
    Reset,
    Http,
    Other,
}

/// The log label of a category.
pub open spec fn category_label(c: TransportCategory) -> Seq<char> {
    match c {
        TransportCategory::TlsTrust => "tls_trust"@,
        TransportCategory::ConnectEof => "connect_eof"@,
        TransportCategory::Timeout => "timeout"@,
        TransportCategory::Reset => "reset"@,
        TransportCategory::Http => "http"@,
        TransportCategory::Other => "other"@,
    }
}

impl TransportCategory {
    /// The category's log label.
    pub fn as_str(self) -> (r: &'static str)
        ensures
            r@ == category_label(self),
    {
        match self {
            TransportCategory::TlsTrust => "tls_trust",
            TransportCategory::ConnectEof => "connect_eof",
            TransportCategory::Timeout => "timeout",
            TransportCategory::Reset => "reset",
            TransportCategory::Http => "http",
            TransportCategory::Other => "other",
        }
    }
}

/// The category a lower-cased transport message names.
pub open spec fn category_of(l: Seq<char>) -> TransportCategory {
    if contains(l, "unknown issuer"@) || contains(l, "unknownissuer"@) || contains(
        l,
        "invalid certificate"@,
    ) || contains(l, "invalid peer certificate"@) || contains(l, "certificate verify"@) || contains(
        l,
        "unknown ca"@,
    ) || contains(l, "notvalidforname"@) || contains(l, "webpki::error"@) {
        TransportCategory::TlsTrust
    } else if contains(l, "handshake eof"@) || (contains(l, "tls"@) && contains(l, "eof"@)) || (
    contains(l, "handshake"@) && contains(l, "eof"@)) {
        TransportCategory::ConnectEof
    } else if contains(l, "timed out"@) || contains(l, "timeout"@) {
        TransportCategory::Timeout
    } else if contains(l, "connection reset"@) || contains(l, "reset by peer"@) {
        TransportCategory::Reset
    } else {
        TransportCategory::Other
    }
}

fn category_of_lower(l: &[char]) -> (r: TransportCategory)
    ensures
        r == category_of(l@),
{
    if contains_str(l, "unknown issuer") || contains_str(l, "unknownissuer") || contains_str(
        l,
        "invalid certificate",
    ) || contains_str(l, "invalid peer certificate") || contains_str(l, "certificate verify")
        || contains_str(l, "unknown ca") || contains_str(l, "notvalidforname") || contains_str(
        l,
        "webpki::error",
    ) {
        TransportCategory::TlsTrust
    } else if contains_str(l, "handshake eof") || (contains_str(l, "tls") && contains_str(l, "eof"))
        || (contains_str(l, "handshake") && contains_str(l, "eof")) {
        TransportCategory::ConnectEof
    } else if contains_str(l, "timed out") || contains_str(l, "timeout") {
        TransportCategory::Timeout
    } else if contains_str(l, "connection reset") || contains_str(l, "reset by peer") {
        TransportCategory::Reset
    } else {
        TransportCategory::Other
    }
}

/// The category of a transport error message (case-insensitive).
pub fn transport_category(message: &str) -> (r: TransportCategory)
    ensures
        r == category_of(lower(message@)),
{
    let l = lower_of(message);
    category_of_lower(l.as_slice())
}

/// The log category of an error.
pub open spec fn error_category_spec(e: AppError) -> Seq<char> {
    match e {
        AppError::RequestTimeout => "timeout"@,
        AppError::RateLimited | AppError::ProviderUnavailable | AppError::OpenRouterServerError => "http"@,
        AppError::ConnectionFailed(m) => category_label(category_of(lower(m@))),
        _ => "other"@,
    }
}

/// The log category of an error.
pub fn error_category(error: &AppError) -> (r: &'static str)
    ensures
        r@ == error_category_spec(*error),
{
    match error {
        AppError::RequestTimeout => TransportCategory::Timeout.as_str(),
        AppError::RateLimited | AppError::ProviderUnavailable | AppError::OpenRouterServerError => {
            TransportCategory::Http.as_str()
        },
        AppError::ConnectionFailed(message) => transport_category(message.as_str()).as_str(),
        AppError::NetworkUnavailable => TransportCategory::Other.as_str(),
        _ => TransportCategory::Other.as_str(),
    }
}

/// A connection that ended during the TLS handshake.
pub open spec fn connect_stage_eof(e: AppError) -> bool {
    e matches AppError::ConnectionFailed(m) && category_of(lower(m@)) == TransportCategory::ConnectEof
}

/// Whether the error is an end-of-stream during connection set-up.
pub fn is_connect_stage_eof(error: &AppError) -> (r: bool)
    ensures
        r == connect_stage_eof(*error),
{
    match error {
        AppError::ConnectionFailed(message) => {
            transport_category(message.as_str()) == TransportCategory::ConnectEof
        },
        _ => false,
    }
}

/// The lower-cased message places a timeout in the connect stage.
pub open spec fn connect_stage_timeout(l: Seq<char>) -> bool {
    contains(l, "handshake"@) || contains(l, "error trying to connect"@) || contains(
        l,
        "tcp connect"@,
    ) || contains(l, "connection timed out"@) || (contains(l, "connect"@) && contains(
        l,
        "timeout"@,
    ))
}

fn is_connect_stage_timeout(l: &[char]) -> (r: bool)
    ensures
        r == connect_stage_timeout(l@),
{
    contains_str(l, "handshake") || contains_str(l, "error trying to connect") || contains_str(
        l,
        "tcp connect",
    ) || contains_str(l, "connection timed out") || (contains_str(l, "connect") && contains_str(
        l,
        "timeout",
    ))
}

/// The words that make an uncategorised transport failure worth retrying.
pub open spec fn transient_words(l: Seq<char>) -> bool {
    contains(l, "timed out"@) || contains(l, "timeout"@) || contains(l, "connection refused"@)
        || contains(l, "connection reset"@) || contains(l, "dns"@) || contains(l, "network"@)
        || contains(l, "unreachable"@) || contains(l, "temporarily"@) || contains(l, "tls"@)
        || contains(l, "reset by peer"@) || contains(l, "error sending request"@) || contains(
        l,
        "error trying to connect"@,
    ) || contains(l, "tcp connect"@)
}

fn has_transient_words(l: &[char]) -> (r: bool)
    ensures
        r == transient_words(l@),
{
    contains_str(l, "timed out") || contains_str(l, "timeout") || contains_str(
        l,
        "connection refused",
    ) || contains_str(l, "connection reset") || contains_str(l, "dns") || contains_str(
        l,
        "network",
    ) || contains_str(l, "unreachable") || contains_str(l, "temporarily") || contains_str(l, "tls")
        || contains_str(l, "reset by peer") || contains_str(l, "error sending request")
        || contains_str(l, "error trying to connect") || contains_str(l, "tcp connect")
}

/// Whether a transport failure with this message is retried: never for an
/// untrusted certificate; always for an end-of-stream, timeout or reset;
/// otherwise when the message reads as transient.
pub open spec fn io_retryable(message: Seq<char>) -> bool {
    let l = lower(message);
    match category_of(l) {
        TransportCategory::TlsTrust => false,
        TransportCategory::ConnectEof | TransportCategory::Timeout | TransportCategory::Reset => true,
        _ => transient_words(l),
    }
}

/// The error a transport failure with this message becomes.
pub open spec fn io_error_ok(e: AppError, message: Seq<char>) -> bool {
    let l = lower(message);
    if category_of(l) == TransportCategory::Timeout {
        if connect_stage_timeout(l) {
            e matches AppError::ConnectionFailed(m) && m@ == message
        } else {
            e == AppError::RequestTimeout
        }
    } else if io_retryable(message) && (contains(l, "dns"@) || contains(l, "network"@)) {
        e == AppError::NetworkUnavailable
    } else {
        e matches AppError::ConnectionFailed(m) && m@ == message
    }
}

/// Classifies a transport failure by its message.
pub fn classify_io(message: &str) -> (r: ClassifiedError)
    ensures
        r.class == if io_retryable(message@) {
            RetryClass::Retryable
        } else {
            RetryClass::Terminal
        },
        io_error_ok(r.error, message@),
        r.http_status is None,
        r.retry_after_ms is None,
{
    let l = lower_of(message);
    let category = category_of_lower(l.as_slice());
    let retryable = match category {
        TransportCategory::TlsTrust => false,
        TransportCategory::ConnectEof | TransportCategory::Timeout | TransportCategory::Reset => {
            true
        },
        TransportCategory::Http | TransportCategory::Other => has_transient_words(l.as_slice()),
    };
    let error = if category == TransportCategory::Timeout {
        if is_connect_stage_timeout(l.as_slice()) {
            AppError::ConnectionFailed(crate::text::owned(message))
        } else {
            AppError::RequestTimeout
        }
    } else if retryable && (contains_str(l.as_slice(), "dns") || contains_str(
        l.as_slice(),
        "network",
    )) {
        AppError::NetworkUnavailable
    } else {
        AppError::ConnectionFailed(crate::text::owned(message))
    };
    ClassifiedError {
        class: if retryable {
            RetryClass::Retryable
        } else {
            RetryClass::Terminal
        },
        error,
        http_status: None,
        retry_after_ms: None,
    }
}


/// Classifies a failed request from what the HTTP client reports of it:
/// whether it timed out, whether it failed while connecting, and its
/// message. A timeout while connecting (or whose message places it there)
/// is a retryable connection failure; any other timeout is a retryable
/// request timeout; everything else is classified by its message.
pub fn classify_transport_failure(message: &str, is_timeout: bool, is_connect: bool) -> (r:
    ClassifiedError)
    ensures
        r.http_status is None,
        r.retry_after_ms is None,
        is_timeout && (is_connect || connect_stage_timeout(lower(message@))) ==> r.class
            == RetryClass::Retryable && (r.error matches AppError::ConnectionFailed(m) && m@
            == message@),
        is_timeout && !(is_connect || connect_stage_timeout(lower(message@))) ==> r.class
            == RetryClass::Retryable && r.error == AppError::RequestTimeout,
        !is_timeout ==> r.class == (if io_retryable(message@) {
            RetryClass::Retryable
        } else {
            RetryClass::Terminal
        }) && io_error_ok(r.error, message@),
{
    if is_timeout {
        let l = lower_of(message);
        if is_connect || is_connect_stage_timeout(l.as_slice()) {
            return ClassifiedError {
                class: RetryClass::Retryable,
                error: AppError::ConnectionFailed(crate::text::owned(message)),
                http_status: None,
                retry_after_ms: None,
            };
        }
        return ClassifiedError {
            class: RetryClass::Retryable,
            error: AppError::RequestTimeout,
            http_status: None,
            retry_after_ms: None,
        };
    }
    classify_io(message)
}

// ---------------------------------------------------------------------------
// Retry-After
// ---------------------------------------------------------------------------
/// Seconds since the Unix epoch of an HTTP date (`httpdate::parse_http_date`),
/// or `None` when the text is not an HTTP date.
pub uninterp spec fn http_date_epoch_secs(value: Seq<char>) -> Option<u64>;

/// Parses an HTTP date (`httpdate::parse_http_date`) and gives its seconds
/// since the Unix epoch. The contract only names the result: it is whatever
/// the outside parser makes of the text.
#[verifier::external_body]
fn parse_http_date_secs(value: &str) -> (r: Option<u64>)
    ensures
        r == http_date_epoch_secs(value@),
{
    match httpdate::parse_http_date(value) {
        Ok(t) => match t.duration_since(std::time::UNIX_EPOCH) {
            Ok(d) => Some(d.as_secs()),
            Err(_) => None,
        },
        Err(_) => None,
    }
}

/// Milliseconds from `now_unix_ms` until `later_secs` (seconds since the
/// epoch): zero when already past, at most `i64::MAX`.
pub open spec fn delay_until(later_secs: u64, now_unix_ms: i64) -> int {
    let d = later_secs * 1000 - now_unix_ms;
    if d < 0 {
        0
    } else if d > i64::MAX {
        i64::MAX as int
    } else {
        d
    }
}

/// The wait that a `Retry-After` date asks for, given the date's seconds
/// since the epoch (when it parsed) and the current time.
pub fn retry_after_from_date(later_secs: Option<u64>, now_unix_ms: i64) -> (r: Option<u64>)
    ensures
        match later_secs {
            Some(l) => r == Some(delay_until(l, now_unix_ms) as u64),
            None => r is None,
        },
{
    match later_secs {
        Some(l) => {
            let d: i128 = (l as i128) * 1000 - (now_unix_ms as i128);
            if d < 0 {
                Some(0)
            } else if d > i64::MAX as i128 {
                Some(i64::MAX as u64)
            } else {
                Some(d as u64)
            }
        },
        None => None,
    }
}

/// `secs * 1000`, saturating.
pub open spec fn secs_to_ms(secs: nat) -> int {
    if secs * 1000 > u64::MAX {
        u64::MAX as int
    } else {
        (secs * 1000) as int
    }
}

/// The wait, in milliseconds, that a `Retry-After` header asks for: a whole
/// number of seconds (after trimming; saturating), else an HTTP date taken
/// relative to `now_unix_ms`.
pub fn parse_retry_after(value: &str, now_unix_ms: i64) -> (r: Option<u64>)
    ensures
        match parse_unsigned(trim(value@), u64::MAX as nat) {
            Some(secs) => r == Some(secs_to_ms(secs) as u64),
            None => match http_date_epoch_secs(value@) {
                Some(l) => r == Some(delay_until(l, now_unix_ms) as u64),
                None => r is None,
            },
        },
{
    let t = trim_of(value);
    match parse_u64(t.as_slice()) {
        Some(secs) => {
            let ms = match secs.checked_mul(1000) {
                Some(v) => v,
                None => u64::MAX,
            };
            Some(ms)
        },
        None => retry_after_from_date(parse_http_date_secs(value), now_unix_ms),
    }
}

// ---------------------------------------------------------------------------
// Backoff and the attempt scheduler
// ---------------------------------------------------------------------------
/// `2^e`.
pub open spec fn pow2(e: nat) -> nat
    decreases e,
{
    if e == 0 {
        1
    } else {
        2 * pow2((e - 1) as nat)
    }
}

/// The exponential backoff before retrying after `failed_attempts` failures,
/// with a jitter of `jitter_permille` thousandths (capped at 200): the
/// initial delay doubled per earlier failure (at most 8 times), capped at the
/// maximum delay, plus the jitter, capped again.
pub open spec fn backoff(policy: RetryPolicy, failed_attempts: u32, jitter_permille: u32) -> int {
    let exp: nat = if failed_attempts == 0 {
        0
    } else if failed_attempts - 1 > 8 {
        8
    } else {
        (failed_attempts - 1) as nat
    };
    let grown = policy.initial_retry_delay_ms * pow2(exp);
    let raw = if grown < policy.max_retry_delay_ms {
        grown
    } else {
        policy.max_retry_delay_ms as int
    };
    let j = if jitter_permille < 200 {
        jitter_permille as int
    } else {
        200
    };
    let with_jitter = raw + raw * j / 1000;
    if with_jitter < policy.max_retry_delay_ms {
        with_jitter
    } else {
        policy.max_retry_delay_ms as int
    }
}

/// The backoff delay in milliseconds.
pub fn backoff_delay(policy: &RetryPolicy, failed_attempts: u32, jitter_permille: u32) -> (r: u64)
    ensures
        r == backoff(*policy, failed_attempts, jitter_permille),
        r <= policy.max_retry_delay_ms,
{
    let exp: u32 = if failed_attempts == 0 {
        0
    } else if failed_attempts - 1 > 8 {
        8
    } else {
        failed_attempts - 1
    };
    let mut factor: u128 = 1;
    let mut k: u32 = 0;
    while k < exp
        invariant
            k <= exp <= 8,
            factor == pow2(k as nat),
            factor <= 256,
        decreases exp - k,
    {
        proof {
            assert(pow2((k + 1) as nat) == 2 * pow2(k as nat));
            if k < 8 {
                lemma_pow2_bound(k as nat);
            }
        }
        factor = factor * 2;
        k = k + 1;
    }
    let init: u128 = policy.initial_retry_delay_ms as u128;
    proof {
        assert(init * factor <= 0xffff_ffff_ffff_ffffu128 * 256) by (nonlinear_arith)
            requires
                init <= 0xffff_ffff_ffff_ffffu128,
                factor <= 256,
        ;
    }
    let grown: u128 = init * factor;
    let raw: u128 = if grown < policy.max_retry_delay_ms as u128 {
        grown
    } else {
        policy.max_retry_delay_ms as u128
    };
    let j: u128 = if jitter_permille < 200 {
        jitter_permille as u128
    } else {
        200
    };
    proof {
        assert(raw * j <= raw * 200) by (nonlinear_arith)
            requires
                j <= 200,
        ;
    }
    let with_jitter: u128 = raw + raw * j / 1000;
    if with_jitter < policy.max_retry_delay_ms as u128 {
        with_jitter as u64
    } else {
        policy.max_retry_delay_ms
    }
}

proof fn lemma_pow2_bound(k: nat)
    requires
        k < 8,
    ensures
        2 * pow2(k) <= 256,
    decreases k,
{
    reveal_with_fuel(pow2, 9);
    if k == 0 {
    } else if k == 1 {
    } else if k == 2 {
    } else if k == 3 {
    } else if k == 4 {
    } else if k == 5 {
    } else if k == 6 {
    } else {
    }
}

/// What to do next with a transcription.
#[derive(Debug, PartialEq, Eq)]
pub enum AttemptDecision {
    Run { attempt: u32, timeout_ms: u64 },
    Wait { attempt: u32, delay_ms: u64 },
    GiveUp(AppError),
}

/// Attempts and the overall deadline of one transcription; times are
/// milliseconds on a monotonic clock.
pub struct RetryScheduler {
    pub policy: RetryPolicy,
    pub deadline_ms: u64,
    pub attempts_used: u32,
}

/// The fast retry delay after a connection ended in the handshake: 80 ms
/// plus up to 80 ms of jitter.
pub open spec fn eof_delay(jitter_permille: u32) -> int {
    let j = if jitter_permille < 1000 {
        jitter_permille as int
    } else {
        1000
    };
    80 + 80 * j / 1000
}

impl RetryScheduler {
    /// The scheduler's invariant: its policy is well formed and it never
    /// used more attempts than the policy allows.
    pub open spec fn inv(&self) -> bool {
        self.policy.wf() && self.attempts_used <= self.policy.attempts()
    }

    /// Milliseconds left until the deadline at `now_ms`.
    pub open spec fn remaining_at(&self, now_ms: u64) -> int {
        if self.deadline_ms > now_ms {
            self.deadline_ms - now_ms
        } else {
            0
        }
    }

    /// A scheduler with no attempts used and the deadline one total timeout
    /// after `now_ms`.
    pub fn new(policy: RetryPolicy, now_ms: u64) -> (r: Self)
        requires
            policy.wf(),
            now_ms + policy.total_operation_timeout_ms <= u64::MAX,
        ensures
            r.inv(),
            r.policy == policy,
            r.deadline_ms == now_ms + policy.total_operation_timeout_ms,
            r.attempts_used == 0,
    {
        let deadline_ms = now_ms + policy.total_operation_timeout_ms;
        RetryScheduler { policy, deadline_ms, attempts_used: 0 }
    }

    /// Milliseconds left until the deadline.
    pub fn remaining(&self, now_ms: u64) -> (r: u64)
        ensures
            r == self.remaining_at(now_ms),
    {
        if self.deadline_ms > now_ms {
            self.deadline_ms - now_ms
        } else {
            0
        }
    }

    /// What starting the next attempt at `now_ms` decides, and the attempts
    /// used after it: past the deadline or with no attempts left it gives
    /// up; otherwise it counts the attempt and runs it with the scaled
    /// timeout cut to the time left (giving up when nothing is left).
    pub open spec fn start_outcome(&self, now_ms: u64, audio_ms: u64) -> (AttemptDecision, u32) {
        if now_ms >= self.deadline_ms || self.attempts_used >= self.policy.attempts() {
            (AttemptDecision::GiveUp(AppError::RetryDeadlineExceeded), self.attempts_used)
        } else {
            let used = (self.attempts_used + 1) as u32;
            let t = if self.policy.scaled_timeout(audio_ms) < self.remaining_at(now_ms) {
                self.policy.scaled_timeout(audio_ms)
            } else {
                self.remaining_at(now_ms)
            };
            if t == 0 {
                (AttemptDecision::GiveUp(AppError::RetryDeadlineExceeded), used)
            } else {
                (AttemptDecision::Run { attempt: used, timeout_ms: t as u64 }, used)
            }
        }
    }

    /// Starts the next attempt, if the deadline and the attempt budget allow
    /// (see `start_outcome`).
    pub fn start_attempt(&mut self, now_ms: u64, audio_ms: u64) -> (r: AttemptDecision)
        requires
            old(self).inv(),
        ensures
            final(self).inv(),
            final(self).policy == old(self).policy,
            final(self).deadline_ms == old(self).deadline_ms,
            (r, final(self).attempts_used) == old(self).start_outcome(now_ms, audio_ms),
    {
        if now_ms >= self.deadline_ms {
            return AttemptDecision::GiveUp(AppError::RetryDeadlineExceeded);
        }
        if self.attempts_used >= self.policy.max_attempts() {
            return AttemptDecision::GiveUp(AppError::RetryDeadlineExceeded);
        }
        self.attempts_used = self.attempts_used + 1;
        let scaled = self.policy.scaled_request_timeout(audio_ms);
        let left = self.remaining(now_ms);
        let timeout = if scaled < left {
            scaled
        } else {
            left
        };
        if timeout == 0 {
            return AttemptDecision::GiveUp(AppError::RetryDeadlineExceeded);
        }
        AttemptDecision::Run { attempt: self.attempts_used, timeout_ms: timeout }
    }

    /// The wait before the next attempt after a failure, before capping.
    pub open spec fn raw_delay(&self, classified: ClassifiedError, jitter_permille: u32) -> int {
        let base = if connect_stage_eof(classified.error) {
            eof_delay(jitter_permille)
        } else {
            backoff(self.policy, self.attempts_used, jitter_permille)
        };
        match classified.retry_after_ms {
            Some(ra) => if ra > base {
                ra as int
            } else {
                base
            },
            None => base,
        }
    }

    /// What follows a failed attempt: terminal failures and an exhausted
    /// budget give up with the failure; an elapsed deadline gives up with
    /// `RetryDeadlineExceeded`; otherwise it waits the backoff (or the fast
    /// handshake delay), at least the server's `Retry-After`, capped at the
    /// maximum delay, and gives up when that wait would reach the deadline.
    pub open spec fn failure_outcome(
        &self,
        classified: ClassifiedError,
        now_ms: u64,
        jitter_permille: u32,
    ) -> AttemptDecision {
        if classified.class == RetryClass::Terminal || self.attempts_used
            >= self.policy.attempts() {
            AttemptDecision::GiveUp(classified.error)
        } else if self.remaining_at(now_ms) == 0 {
            AttemptDecision::GiveUp(AppError::RetryDeadlineExceeded)
        } else {
            let raw = self.raw_delay(classified, jitter_permille);
            let capped = if raw < self.policy.max_retry_delay_ms {
                raw
            } else {
                self.policy.max_retry_delay_ms as int
            };
            if capped >= self.remaining_at(now_ms) {
                AttemptDecision::GiveUp(AppError::RetryDeadlineExceeded)
            } else {
                AttemptDecision::Wait { attempt: self.attempts_used, delay_ms: capped as u64 }
            }
        }
    }

    /// Decides what follows a failed attempt (see `failure_outcome`).
    pub fn after_failure(&self, classified: &ClassifiedError, now_ms: u64, jitter_permille: u32) -> (r:
        AttemptDecision)
        requires
            self.inv(),
        ensures
            r == self.failure_outcome(*classified, now_ms, jitter_permille),
            r matches AttemptDecision::Wait { attempt, delay_ms } ==> delay_ms
                <= self.policy.max_retry_delay_ms && delay_ms < self.remaining_at(now_ms) && attempt
                == self.attempts_used,
    {
        if classified.class == RetryClass::Terminal {
            return AttemptDecision::GiveUp(classified.error.clone());
        }
        if self.attempts_used >= self.policy.max_attempts() {
            return AttemptDecision::GiveUp(classified.error.clone());
        }
        let remaining = self.remaining(now_ms);
        if remaining == 0 {
            return AttemptDecision::GiveUp(AppError::RetryDeadlineExceeded);
        }
        let mut delay: u64 = if is_connect_stage_eof(&classified.error) {
            let j: u64 = if jitter_permille < 1000 {
                jitter_permille as u64
            } else {
                1000
            };
            80 + 80 * j / 1000
        } else {
            backoff_delay(&self.policy, self.attempts_used, jitter_permille)
        };
        match classified.retry_after_ms {
            Some(ra) => {
                if ra > delay {
                    delay = ra;
                }
            },
            None => {},
        }
        if delay > self.policy.max_retry_delay_ms {
            delay = self.policy.max_retry_delay_ms;
        }
        if delay >= remaining {
            return AttemptDecision::GiveUp(AppError::RetryDeadlineExceeded);
        }
        AttemptDecision::Wait { attempt: self.attempts_used, delay_ms: delay }
    }
}

/// A wait the scheduler asks for always ends in a run: starting the next
/// attempt any time from the failure until the wait is over runs it, as the
/// next attempt, with a positive timeout.
pub proof fn law_wait_then_run(
    s: RetryScheduler,
    classified: ClassifiedError,
    now_ms: u64,
    jitter_permille: u32,
    later_ms: u64,
    audio_ms: u64,
)
    requires
        s.inv(),
        s.failure_outcome(classified, now_ms, jitter_permille) matches AttemptDecision::Wait {
            delay_ms,
            ..
        } && now_ms <= later_ms <= now_ms + delay_ms,
    ensures
        s.start_outcome(later_ms, audio_ms).0 matches AttemptDecision::Run { attempt, timeout_ms }
            && attempt == s.attempts_used + 1 && timeout_ms > 0,
{
}

/// A scheduler never runs more attempts than its policy allows: once the
/// budget is spent, starting gives up and uses nothing more.
pub proof fn law_attempt_budget(s: RetryScheduler, now_ms: u64, audio_ms: u64)
    requires
        s.inv(),
    ensures
        s.start_outcome(now_ms, audio_ms).1 <= s.policy.attempts(),
        s.attempts_used >= s.policy.attempts() ==> s.start_outcome(now_ms, audio_ms) == (
        AttemptDecision::GiveUp(AppError::RetryDeadlineExceeded), s.attempts_used),
{
}

} // verus!
