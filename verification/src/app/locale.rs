//! Which language the interface speaks.
use vstd::prelude::*;

use crate::text::{lower, lower_of, starts_with, starts_with_str, str_eq};

verus! {

/// The interface language: the setting when it names English or Russian;
/// otherwise Russian when the system language starts with `ru` (in any
/// case), else English.
pub open spec fn ui_locale(ui_language: Seq<char>, system_language: Seq<char>) -> Seq<char> {
    if ui_language == "en"@ {
        "en"@
    } else if ui_language == "ru"@ {
        "ru"@
    } else if starts_with(lower(system_language), "ru"@) {
        "ru"@
    } else {
        "en"@
    }
}

/// The interface language for the `ui_language` setting and the system's
/// language tag (empty when the system names none).
pub fn resolved_ui_locale(ui_language: &str, system_language: &str) -> (r: &'static str)
    ensures
        r@ == ui_locale(ui_language@, system_language@),
{
    if str_eq(ui_language, "en") {
        "en"
    } else if str_eq(ui_language, "ru") {
        "ru"
    } else {
        let lang = lower_of(system_language);
        if starts_with_str(lang.as_slice(), "ru") {
            "ru"
        } else {
            "en"
        }
    }
}

} // verus!
