//! Names and filter settings of the log files.
use vstd::prelude::*;

use crate::text::{chars_of, extend_chars, extend_str, starts_with, starts_with_str,
    string_from_chars};

verus! {

/// How many daily log files are kept.
pub const MAX_LOG_FILES: usize = 14;

/// The log files' name before the date.
pub const LOG_PREFIX: &'static str = "voxely";

/// The log files' extension.
pub const LOG_SUFFIX: &'static str = "log";

/// The log filter: the app's own messages from `debug` up and everything
/// else from `info` up in debug mode; otherwise from `info` and `warn`.
pub fn log_filter_directive(debug: bool) -> (r: &'static str)
    ensures
        r@ == if debug {
            "info,voxely_lib=debug"@
        } else {
            "warn,voxely_lib=info"@
        },
{
    if debug {
        "info,voxely_lib=debug"
    } else {
        "warn,voxely_lib=info"
    }
}

/// A date as log names carry it: ten characters, digits or `-`, with `-`
/// at the fifth and eighth.
pub open spec fn log_date(date: Seq<char>) -> bool {
    &&& date.len() == 10
    &&& date[4] == '-'
    &&& date[7] == '-'
    &&& forall|i: int| 0 <= i < 10 ==> ('0' <= #[trigger] date[i] <= '9' || date[i] == '-')
}

/// The name a log file of the old `voxely.log.<date>` form is renamed to,
/// `voxely.<date>.log`; none for any other name.
pub open spec fn legacy_log_rename(name: Seq<char>) -> Option<Seq<char>> {
    let prefix = "voxely.log."@;
    if starts_with(name, prefix) && log_date(name.subrange(prefix.len() as int, name.len() as int)) {
        Some("voxely."@ + name.subrange(prefix.len() as int, name.len() as int) + ".log"@)
    } else {
        None
    }
}

/// The new name of a log file that still has the old dated-extension name.
pub fn legacy_log_target(name: &str) -> (r: Option<String>)
    ensures
        match legacy_log_rename(name@) {
            Some(n) => r matches Some(s) && s@ == n,
            None => r is None,
        },
{
    let c = chars_of(name);
    let prefix = chars_of("voxely.log.");
    if !starts_with_str(c.as_slice(), "voxely.log.") {
        return None;
    }
    let start = prefix.len();
    if c.len() - start != 10 {
        return None;
    }
    let mut i: usize = 0;
    while i < 10
        invariant
            start == "voxely.log."@.len(),
            c@ == name@,
            c@.len() == start + 10,
            c.len() == start + 10,
            i <= 10,
            forall|k: int|
                0 <= k < i ==> ('0' <= #[trigger] c@[start + k] <= '9' || c@[start + k] == '-'),
        decreases 10 - i,
    {
        let ch = c[start + i];
        if !(('0' <= ch && ch <= '9') || ch == '-') {
            proof {
                assert(c@.subrange(start as int, c@.len() as int)[i as int] == ch);
            }
            return None;
        }
        i = i + 1;
    }
    if c[start + 4] != '-' || c[start + 7] != '-' {
        proof {
            assert(c@.subrange(start as int, c@.len() as int)[4] == c@[start + 4]);
            assert(c@.subrange(start as int, c@.len() as int)[7] == c@[start + 7]);
        }
        return None;
    }
    let mut out: Vec<char> = Vec::new();
    extend_str(&mut out, "voxely.");
    let mut date: Vec<char> = Vec::new();
    let mut k: usize = start;
    while k < c.len()
        invariant
            start <= k <= c@.len(),
            date@ == c@.subrange(start as int, k as int),
        decreases c@.len() - k,
    {
        date.push(c[k]);
        proof {
            assert(date@ =~= c@.subrange(start as int, k + 1));
        }
        k = k + 1;
    }
    extend_chars(&mut out, date.as_slice());
    extend_str(&mut out, ".log");
    proof {
        let d = c@.subrange(start as int, c@.len() as int);
        assert forall|j: int| 0 <= j < 10 implies ('0' <= #[trigger] d[j] <= '9' || d[j] == '-') by {
            assert(d[j] == c@[start + j]);
        }
        assert(d[4] == c@[start + 4]);
        assert(d[7] == c@[start + 7]);
    }
    Some(string_from_chars(out.as_slice()))
}

} // verus!
