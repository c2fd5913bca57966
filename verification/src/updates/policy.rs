//! Which release tags count as newer stable versions, and when installing is
//! allowed.
use vstd::prelude::*;

use crate::text::{chars_of, find_char, has_char, parse_u32, parse_unsigned, slice_chars,
    split_chars, split_on, string_from_chars, trim, trim_chars};

verus! {

/// A version string without surrounding whitespace, without one leading `v`
/// or `V`, and without build metadata after `+`.
pub open spec fn normalized(version: Seq<char>) -> Seq<char> {
    let t = trim(version);
    let u = if t.len() > 0 && (t[0] == 'v' || t[0] == 'V') {
        t.drop_first()
    } else {
        t
    };
    if u.contains('+') {
        u.take(choose|i: int| 0 <= i < u.len() && u[i] == '+' && forall|j: int| 0 <= j < i ==> u[j] != '+')
    } else {
        u
    }
}

fn normalized_chars(version: &str) -> (r: Vec<char>)
    ensures
        r@ == normalized(version@),
{
    let c = chars_of(version);
    let t = trim_chars(c.as_slice());
    let u = if t.len() > 0 && (t[0] == 'v' || t[0] == 'V') {
        slice_chars(t.as_slice(), 1, t.len())
    } else {
        t
    };
    proof {
        if t@.len() > 0 && (t@[0] == 'v' || t@[0] == 'V') {
            assert(u@ =~= t@.drop_first());
        }
    }
    match find_char(u.as_slice(), '+') {
        Some(p) => {
            let r = slice_chars(u.as_slice(), 0, p);
            proof {
                assert(u@.contains('+'));
                let q = choose|i: int| 0 <= i < u@.len() && u@[i] == '+' && forall|j: int| 0 <= j < i ==> u@[j] != '+';
                assert(q == p) by {
                    if q < p {
                        assert(u@[q] != '+');
                    } else if q > p {
                        assert(u@[p as int] != '+');
                    }
                }
                assert(r@ =~= u@.take(p as int));
            }
            r
        },
        None => u,
    }
}

/// The version string without whitespace, leading `v` and build metadata.
pub fn normalize_version(version: &str) -> (r: String)
    ensures
        r@ == normalized(version@),
{
    let v = normalized_chars(version);
    string_from_chars(v.as_slice())
}

/// `(major, minor, patch)` of a release tag: `None` for a pre-release
/// (any `-`), and otherwise the first three dot-separated parts, each read as
/// `u32` (later parts are ignored).
pub open spec fn tag_triple(tag: Seq<char>) -> Option<(u32, u32, u32)> {
    let n = normalized(tag);
    let parts = split_on(n, '.');
    if n.contains('-') || parts.len() < 3 {
        None
    } else {
        match (
            parse_unsigned(parts[0], u32::MAX as nat),
            parse_unsigned(parts[1], u32::MAX as nat),
            parse_unsigned(parts[2], u32::MAX as nat),
        ) {
            (Some(a), Some(b), Some(c)) => Some((a as u32, b as u32, c as u32)),
            _ => None,
        }
    }
}

/// Reads a release tag as a stable `(major, minor, patch)`.
pub fn parse_tag(tag: &str) -> (r: Option<(u32, u32, u32)>)
    ensures
        r == tag_triple(tag@),
{
    let n = normalized_chars(tag);
    if has_char(n.as_slice(), '-') {
        return None;
    }
    let parts = split_chars(n.as_slice(), '.');
    if parts.len() < 3 {
        return None;
    }
    let major = match parse_u32(parts[0].as_slice()) {
        Some(v) => v,
        None => {
            return None;
        },
    };
    let minor = match parse_u32(parts[1].as_slice()) {
        Some(v) => v,
        None => {
            return None;
        },
    };
    let patch = match parse_u32(parts[2].as_slice()) {
        Some(v) => v,
        None => {
            return None;
        },
    };
    Some((major, minor, patch))
}

/// Lexicographic order of version triples.
pub open spec fn newer(current: (u32, u32, u32), candidate: (u32, u32, u32)) -> bool {
    candidate.0 > current.0 || (candidate.0 == current.0 && (candidate.1 > current.1 || (
    candidate.1 == current.1 && candidate.2 > current.2)))
}

/// Whether `candidate` is a later version than `current`.
pub fn is_newer(current: (u32, u32, u32), candidate: (u32, u32, u32)) -> (r: bool)
    ensures
        r == newer(current, candidate),
{
    if candidate.0 != current.0 {
        candidate.0 > current.0
    } else if candidate.1 != current.1 {
        candidate.1 > current.1
    } else {
        candidate.2 > current.2
    }
}

/// Whether `candidate` is a stable release newer than `current`: both tags
/// must read as versions, and pre-releases never count.
pub fn is_newer_stable(current: &str, candidate: &str, prerelease: bool) -> (r: bool)
    ensures
        r == (!prerelease && match (tag_triple(current@), tag_triple(candidate@)) {
            (Some(c), Some(n)) => newer(c, n),
            _ => false,
        }),
{
    if prerelease {
        return false;
    }
    let cur = match parse_tag(current) {
        Some(v) => v,
        None => {
            return false;
        },
    };
    let next = match parse_tag(candidate) {
        Some(v) => v,
        None => {
            return false;
        },
    };
    is_newer(cur, next)
}

/// Whether an update may install now: not while dictation is busy.
pub fn install_allowed(dictation_busy: bool) -> (r: bool)
    ensures
        r == !dictation_busy,
{
    !dictation_busy
}

/// The version order is a strict order: no version is newer than itself,
/// and of two different versions exactly one is the newer.
pub proof fn law_version_order_is_strict(a: (u32, u32, u32), b: (u32, u32, u32))
    ensures
        !newer(a, a),
        newer(a, b) ==> !newer(b, a),
        a != b ==> (newer(a, b) || newer(b, a)),
{
}

/// Versions are ordered by their major part first, then the minor part,
/// then the patch: a larger major part is newer whatever the rest, a
/// smaller one never is, and so on down the parts; an equal version is not
/// newer.
pub proof fn law_version_parts_by_priority(current: (u32, u32, u32), candidate: (u32, u32, u32))
    ensures
        candidate.0 > current.0 ==> newer(current, candidate),
        candidate.0 < current.0 ==> !newer(current, candidate),
        candidate.0 == current.0 && candidate.1 > current.1 ==> newer(current, candidate),
        candidate.0 == current.0 && candidate.1 < current.1 ==> !newer(current, candidate),
        candidate.0 == current.0 && candidate.1 == current.1 ==> (newer(current, candidate)
            <==> candidate.2 > current.2),
{
}

} // verus!
