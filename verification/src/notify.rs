//! Which errors become desktop notifications, and with what text.
use vstd::prelude::*;

use crate::error::{error_message, AppError};

verus! {

/// The AppUserModelID that Windows toasts are attributed to.
pub const WINDOWS_APP_USER_MODEL_ID: &'static str = "com.voxely.desktop";

/// Whether an error deserves a notification: every error but a cancel.
pub fn should_toast_error(err: &AppError) -> (r: bool)
    ensures
        r == !(*err is Cancelled),
{
    match err {
        AppError::Cancelled => false,
        _ => true,
    }
}

/// The (title, body) of the notification for `err`, when notifications are
/// enabled and the error deserves one.
pub fn error_toast(app_name: &'static str, enabled: bool, err: &AppError) -> (r: Option<
    (&'static str, String),
>)
    ensures
        match r {
            Some((title, body)) => enabled && !(*err is Cancelled) && title == app_name && body@
                == error_message(*err),
            None => !enabled || *err is Cancelled,
        },
{
    if !enabled || !should_toast_error(err) {
        return None;
    }
    Some((app_name, err.user_message()))
}

/// The body of the test notification: English for `en`, else Russian.
pub fn preview_body(locale: &str) -> (r: &'static str)
    ensures
        r@ == if locale@ == "en"@ {
            "Test error notification"@
        } else {
            "Тестовое уведомление об ошибке"@
        },
{
    if crate::text::str_eq(locale, "en") {
        "Test error notification"
    } else {
        "Тестовое уведомление об ошибке"
    }
}

} // verus!
