//! The library's error type, its stable codes and its user-facing messages.
use vstd::prelude::*;

use crate::text::owned;

verus! {

/// Every failure the dictation pipeline can report.
#[derive(Debug, PartialEq, Eq)]
pub enum AppError {
    MicrophoneUnavailable,
    AudioCaptureFailed(String),
    AudioProcessingFailed(String),
    StorageFailed(String),
    InvalidApiKey,
    InvalidModel(String),
    RequestValidationFailed(String),
    NetworkUnavailable,
    ConnectionFailed(String),
    RequestTimeout,
    RateLimited,
    ProviderUnavailable,
    OpenRouterServerError,
    ResponseMalformed,
    RecordingTooLarge,
    RetryDeadlineExceeded,
    TextInsertionFailed(String),
    Cancelled,
    HotkeyFailed(String),
    IllegalTransition(String),
    TranscriptionInProgress,
    Interrupted,
}

impl Clone for AppError {
    fn clone(&self) -> (r: Self)
        ensures
            r == *self,
    {
        match self {
            AppError::MicrophoneUnavailable => AppError::MicrophoneUnavailable,
            AppError::AudioCaptureFailed(m) => AppError::AudioCaptureFailed(m.clone()),
            AppError::AudioProcessingFailed(m) => AppError::AudioProcessingFailed(m.clone()),
            AppError::StorageFailed(m) => AppError::StorageFailed(m.clone()),
            AppError::InvalidApiKey => AppError::InvalidApiKey,
            AppError::InvalidModel(m) => AppError::InvalidModel(m.clone()),
            AppError::RequestValidationFailed(m) => AppError::RequestValidationFailed(m.clone()),
            AppError::NetworkUnavailable => AppError::NetworkUnavailable,
            AppError::ConnectionFailed(m) => AppError::ConnectionFailed(m.clone()),
            AppError::RequestTimeout => AppError::RequestTimeout,
            AppError::RateLimited => AppError::RateLimited,
            AppError::ProviderUnavailable => AppError::ProviderUnavailable,
            AppError::OpenRouterServerError => AppError::OpenRouterServerError,
            AppError::ResponseMalformed => AppError::ResponseMalformed,
            AppError::RecordingTooLarge => AppError::RecordingTooLarge,
            AppError::RetryDeadlineExceeded => AppError::RetryDeadlineExceeded,
            AppError::TextInsertionFailed(m) => AppError::TextInsertionFailed(m.clone()),
            AppError::Cancelled => AppError::Cancelled,
            AppError::HotkeyFailed(m) => AppError::HotkeyFailed(m.clone()),
            AppError::IllegalTransition(m) => AppError::IllegalTransition(m.clone()),
            AppError::TranscriptionInProgress => AppError::TranscriptionInProgress,
            AppError::Interrupted => AppError::Interrupted,
        }
    }
}

/// The stable code of an error: the name of its variant.
pub open spec fn error_code(e: AppError) -> Seq<char> {
    match e {
        AppError::MicrophoneUnavailable => "MicrophoneUnavailable"@,
        AppError::AudioCaptureFailed(_) => "AudioCaptureFailed"@,
        AppError::AudioProcessingFailed(_) => "AudioProcessingFailed"@,
        AppError::StorageFailed(_) => "StorageFailed"@,
        AppError::InvalidApiKey => "InvalidApiKey"@,
        AppError::InvalidModel(_) => "InvalidModel"@,
        AppError::RequestValidationFailed(_) => "RequestValidationFailed"@,
        AppError::NetworkUnavailable => "NetworkUnavailable"@,
        AppError::ConnectionFailed(_) => "ConnectionFailed"@,
        AppError::RequestTimeout => "RequestTimeout"@,
        AppError::RateLimited => "RateLimited"@,
        AppError::ProviderUnavailable => "ProviderUnavailable"@,
        AppError::OpenRouterServerError => "OpenRouterServerError"@,
        AppError::ResponseMalformed => "ResponseMalformed"@,
        AppError::RecordingTooLarge => "RecordingTooLarge"@,
        AppError::RetryDeadlineExceeded => "RetryDeadlineExceeded"@,
        AppError::TextInsertionFailed(_) => "TextInsertionFailed"@,
        AppError::Cancelled => "Cancelled"@,
        AppError::HotkeyFailed(_) => "HotkeyFailed"@,
        AppError::IllegalTransition(_) => "IllegalTransition"@,
        AppError::TranscriptionInProgress => "TranscriptionInProgress"@,
        AppError::Interrupted => "Interrupted"@,
    }
}

/// The message shown to the user for an error (Russian UI copy).
pub open spec fn error_message(e: AppError) -> Seq<char> {
    match e {
        AppError::MicrophoneUnavailable => "Микрофон недоступен"@,
        AppError::AudioCaptureFailed(_) => "Не удалось записать звук"@,
        AppError::AudioProcessingFailed(_) => "Не удалось обработать запись"@,
        AppError::StorageFailed(_) => "Не удалось сохранить данные"@,
        AppError::InvalidApiKey => "Нет API-ключа OpenRouter"@,
        AppError::InvalidModel(_) => "Неверная модель"@,
        AppError::RequestValidationFailed(_) => "Неверный запрос"@,
        AppError::NetworkUnavailable => "Нет сети"@,
        AppError::ConnectionFailed(_) => "Нет соединения с OpenRouter"@,
        AppError::RequestTimeout => "Превышено время ожидания"@,
        AppError::RateLimited => "Слишком много запросов"@,
        AppError::ProviderUnavailable => "Провайдер недоступен"@,
        AppError::OpenRouterServerError => "Ошибка сервера OpenRouter"@,
        AppError::ResponseMalformed => "Некорректный ответ"@,
        AppError::RecordingTooLarge => "Запись слишком большая"@,
        AppError::RetryDeadlineExceeded => "Истекло время повторов"@,
        AppError::TextInsertionFailed(_) => "Не удалось вставить текст"@,
        AppError::Cancelled => "Отменено"@,
        AppError::HotkeyFailed(_) => "Не удалось зарегистрировать хоткей"@,
        AppError::IllegalTransition(_) => "Недопустимое состояние сессии"@,
        AppError::TranscriptionInProgress => "Расшифровка уже идёт"@,
        AppError::Interrupted => "Запись прервана. Можно повторить расшифровку"@,
    }
}

impl AppError {
    /// The message shown to the user.
    pub fn user_message(&self) -> (r: String)
        ensures
            r@ == error_message(*self),
    {
        let s: &str = match self {
            AppError::MicrophoneUnavailable => "Микрофон недоступен",
            AppError::AudioCaptureFailed(_) => "Не удалось записать звук",
            AppError::AudioProcessingFailed(_) => "Не удалось обработать запись",
            AppError::StorageFailed(_) => "Не удалось сохранить данные",
            AppError::InvalidApiKey => "Нет API-ключа OpenRouter",
            AppError::InvalidModel(_) => "Неверная модель",
            AppError::RequestValidationFailed(_) => "Неверный запрос",
            AppError::NetworkUnavailable => "Нет сети",
            AppError::ConnectionFailed(_) => "Нет соединения с OpenRouter",
            AppError::RequestTimeout => "Превышено время ожидания",
            AppError::RateLimited => "Слишком много запросов",
            AppError::ProviderUnavailable => "Провайдер недоступен",
            AppError::OpenRouterServerError => "Ошибка сервера OpenRouter",
            AppError::ResponseMalformed => "Некорректный ответ",
            AppError::RecordingTooLarge => "Запись слишком большая",
            AppError::RetryDeadlineExceeded => "Истекло время повторов",
            AppError::TextInsertionFailed(_) => "Не удалось вставить текст",
            AppError::Cancelled => "Отменено",
            AppError::HotkeyFailed(_) => "Не удалось зарегистрировать хоткей",
            AppError::IllegalTransition(_) => "Недопустимое состояние сессии",
            AppError::TranscriptionInProgress => "Расшифровка уже идёт",
            AppError::Interrupted => "Запись прервана. Можно повторить расшифровку",
        };
        owned(s)
    }

    /// The stable code of the error: the name of its variant.
    pub fn code(&self) -> (r: &'static str)
        ensures
            r@ == error_code(*self),
    {
        match self {
            AppError::MicrophoneUnavailable => "MicrophoneUnavailable",
            AppError::AudioCaptureFailed(_) => "AudioCaptureFailed",
            AppError::AudioProcessingFailed(_) => "AudioProcessingFailed",
            AppError::StorageFailed(_) => "StorageFailed",
            AppError::InvalidApiKey => "InvalidApiKey",
            AppError::InvalidModel(_) => "InvalidModel",
            AppError::RequestValidationFailed(_) => "RequestValidationFailed",
            AppError::NetworkUnavailable => "NetworkUnavailable",
            AppError::ConnectionFailed(_) => "ConnectionFailed",
            AppError::RequestTimeout => "RequestTimeout",
            AppError::RateLimited => "RateLimited",
            AppError::ProviderUnavailable => "ProviderUnavailable",
            AppError::OpenRouterServerError => "OpenRouterServerError",
            AppError::ResponseMalformed => "ResponseMalformed",
            AppError::RecordingTooLarge => "RecordingTooLarge",
            AppError::RetryDeadlineExceeded => "RetryDeadlineExceeded",
            AppError::TextInsertionFailed(_) => "TextInsertionFailed",
            AppError::Cancelled => "Cancelled",
            AppError::HotkeyFailed(_) => "HotkeyFailed",
            AppError::IllegalTransition(_) => "IllegalTransition",
            AppError::TranscriptionInProgress => "TranscriptionInProgress",
            AppError::Interrupted => "Interrupted",
        }
    }
}

} // verus!
