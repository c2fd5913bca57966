//! Which `HKCU\...\Run` values launch this executable besides the live one.
use vstd::prelude::*;

use crate::text::{chars_are, chars_of, lower, lower_of, occurs_at, occurs_at_exec, str_eq};

verus! {

/// ASCII letters and digits.
pub open spec fn is_ascii_alnum(c: char) -> bool {
    ('a' <= c <= 'z') || ('A' <= c <= 'Z') || ('0' <= c <= '9')
}

/// The characters that separate the parts of a Run command line.
pub open spec fn run_separator(c: char) -> bool {
    !is_ascii_alnum(c) && c != '.'
}

/// `p` is one whole part of `s` when `s` is split at run separators (for a
/// `p` that holds no separator).
pub open spec fn whole_part_at(s: Seq<char>, p: Seq<char>, i: int) -> bool {
    &&& occurs_at(s, p, i)
    &&& (i == 0 || run_separator(s[i - 1]))
    &&& (i + p.len() == s.len() || run_separator(s[i + p.len()]))
}

/// The command, lower-cased, has `voxely.exe` as one of its parts.
pub open spec fn launches_voxely_spec(command: Seq<char>) -> bool {
    exists|i: int| #[trigger] whole_part_at(lower(command), "voxely.exe"@, i)
}

fn is_run_separator(c: char) -> (r: bool)
    ensures
        r == run_separator(c),
{
    !(('a' <= c && c <= 'z') || ('A' <= c && c <= 'Z') || ('0' <= c && c <= '9') || c == '.')
}

/// Whether a Run command line starts this executable.
pub fn launches_voxely(command: &str) -> (r: bool)
    ensures
        r == launches_voxely_spec(command@),
{
    let l = lower_of(command);
    let p = chars_of("voxely.exe");
    let n = l.len();
    let m = p.len();
    proof {
        reveal_strlit("voxely.exe");
    }
    for i in 0..n
        invariant
            n == l@.len(),
            m == p@.len(),
            l@ == lower(command@),
            p@ == "voxely.exe"@,
            forall|k: int| 0 <= k < i ==> !whole_part_at(l@, p@, k),
    {
        if occurs_at_exec(l.as_slice(), p.as_slice(), i) {
            let before = i == 0 || is_run_separator(l[i - 1]);
            let after = i + m == n || is_run_separator(l[i + m]);
            if before && after {
                assert(whole_part_at(l@, p@, i as int));
                return true;
            }
        }
    }
    assert forall|k: int| !whole_part_at(l@, p@, k) by {
        if 0 <= k < n {
        }
    }
    false
}

/// Whether a Run value should be deleted: it is not the value to keep, and
/// it launches this executable.
pub fn should_delete_run_value(value_name: &str, command: &str, keep: &str) -> (r: bool)
    ensures
        r == (value_name@ != keep@ && launches_voxely_spec(command@)),
{
    !str_eq(value_name, keep) && launches_voxely(command)
}

/// The names of the Run values in `entries` that should be deleted, in order.
pub open spec fn extra_names(entries: Seq<(&str, &str)>, keep: Seq<char>) -> Seq<Seq<char>>
    decreases entries.len(),
{
    if entries.len() == 0 {
        seq![]
    } else {
        let rest = extra_names(entries.drop_last(), keep);
        let e = entries.last();
        if e.0@ != keep && launches_voxely_spec(e.1@) {
            rest.push(e.0@)
        } else {
            rest
        }
    }
}

/// The names of the `(name, command)` Run values that should be deleted.
pub fn extra_run_value_names(entries: &[(&str, &str)], keep: &str) -> (r: Vec<String>)
    ensures
        r@.len() == extra_names(entries@, keep@).len(),
        forall|k: int| 0 <= k < r@.len() ==> #[trigger] r@[k]@ == extra_names(entries@, keep@)[k],
{
    let mut out: Vec<String> = Vec::new();
    for i in 0..entries.len()
        invariant
            out@.len() == extra_names(entries@.take(i as int), keep@).len(),
            forall|k: int| 0 <= k < out@.len() ==> #[trigger] out@[k]@ == extra_names(
                entries@.take(i as int),
                keep@,
            )[k],
    {
        let (name, command) = entries[i];
        proof {
            assert(entries@.take(i + 1).drop_last() =~= entries@.take(i as int));
            assert(entries@.take(i + 1).last() == entries@[i as int]);
        }
        if should_delete_run_value(name, command, keep) {
            out.push(crate::text::owned(name));
        }
    }
    assert(entries@.take(entries@.len() as int) =~= entries@);
    out
}

} // verus!
