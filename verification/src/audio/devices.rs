//! Choosing the microphone: stable ids for devices that share a name, and how
//! a preferred device is resolved.
use vstd::prelude::*;

use crate::text::{chars_of, decimal, extend_chars, extend_str, push_decimal, str_eq,
    string_from_chars};

verus! {

/// A capture device as the settings screen lists it.
#[derive(Debug, Clone, PartialEq)]
pub struct InputDeviceInfo {
    pub id: String,
    pub name: String,
    pub is_default: bool,
    pub sample_rate: Option<u32>,
    pub channels: Option<u16>,
    pub available: bool,
}

/// How a preferred microphone resolves.
#[derive(Debug, Clone, Copy, PartialEq, Eq)]
pub enum DeviceResolvePlan {
    Exact,
    Default,
    FallbackDefault,
    Ambiguous,
    Unavailable,
}

/// How many of the first `upto` names equal `name`.
pub open spec fn count_name(names: Seq<Seq<char>>, name: Seq<char>, upto: int) -> nat
    decreases upto,
{
    if upto <= 0 {
        0
    } else {
        count_name(names, name, upto - 1) + if names[upto - 1] == name { 1nat } else { 0nat }
    }
}

/// The id of the `i`-th device: its name the first time the name occurs,
/// then `name #n` for the n-th occurrence.
pub open spec fn device_id(names: Seq<Seq<char>>, i: int) -> Seq<char> {
    let n = count_name(names, names[i], i + 1);
    if n == 1 {
        names[i]
    } else {
        names[i] + " #"@ + decimal(n)
    }
}

/// The views of a list of strings.
pub open spec fn views(v: Seq<String>) -> Seq<Seq<char>> {
    v.map_values(|s: String| s@)
}

/// The stable ids of devices listed with these names, in order.
pub fn device_ids(names: &[String]) -> (r: Vec<String>)
    requires
        names@.len() < u32::MAX,
    ensures
        r@.len() == names@.len(),
        forall|i: int| 0 <= i < names@.len() ==> #[trigger] r@[i]@ == device_id(views(names@), i),
{
    let ghost ns = views(names@);
    let mut out: Vec<String> = Vec::new();
    for i in 0..names.len()
        invariant
            ns == views(names@),
            names@.len() < u32::MAX,
            out@.len() == i,
            forall|k: int| 0 <= k < i ==> #[trigger] out@[k]@ == device_id(ns, k),
    {
        let mut count: u32 = 0;
        for j in 0..i + 1
            invariant
                ns == views(names@),
                i < names@.len() < u32::MAX,
                count == count_name(ns, ns[i as int], j as int),
                count <= j,
        {
            if str_eq(names[j].as_str(), names[i].as_str()) {
                count = count + 1;
            }
        }
        proof {
            assert(ns[i as int] == names@[i as int]@);
        }
        if count == 1 {
            out.push(string_from_chars(chars_of(names[i].as_str()).as_slice()));
        } else {
            let mut v = chars_of(names[i].as_str());
            extend_str(&mut v, " #");
            push_decimal(&mut v, count as u128);
            out.push(string_from_chars(v.as_slice()));
        }
    }
    out
}

/// Whether `name` is one of `names`.
pub open spec fn has_name(names: Seq<String>, name: Seq<char>) -> bool {
    exists|i: int| 0 <= i < names.len() && #[trigger] names[i]@ == name
}

/// How many entries of `names` equal `name`.
pub open spec fn name_count(names: Seq<String>, name: Seq<char>) -> nat {
    count_name(views(names), name, names.len() as int)
}

/// The resolution plan: no preference (or `default`) takes the default
/// device; an id match or a unique name match is exact; a shared name is
/// ambiguous; a missing device falls back to the default when there is one.
pub open spec fn resolve_plan(
    preferred: Option<Seq<char>>,
    ids: Seq<String>,
    names: Seq<String>,
    has_default: bool,
) -> DeviceResolvePlan {
    match preferred {
        Some(name) if name != "default"@ => {
            if has_name(ids, name) {
                DeviceResolvePlan::Exact
            } else if name_count(names, name) > 1 {
                DeviceResolvePlan::Ambiguous
            } else if name_count(names, name) == 1 {
                DeviceResolvePlan::Exact
            } else if has_default {
                DeviceResolvePlan::FallbackDefault
            } else {
                DeviceResolvePlan::Unavailable
            }
        },
        _ => if has_default {
            DeviceResolvePlan::Default
        } else {
            DeviceResolvePlan::Unavailable
        },
    }
}

/// Decides how the preferred microphone resolves among the listed devices.
pub fn plan_device_resolve(
    preferred: Option<&str>,
    listed_ids: &[String],
    listed_names: &[String],
    has_default: bool,
) -> (r: DeviceResolvePlan)
    ensures
        r == resolve_plan(
            match preferred {
                Some(p) => Some(p@),
                None => None,
            },
            listed_ids@,
            listed_names@,
            has_default,
        ),
{
    let name = match preferred {
        Some(p) => {
            if str_eq(p, "default") {
                None
            } else {
                Some(p)
            }
        },
        None => None,
    };
    let name = match name {
        Some(n) => n,
        None => {
            return if has_default {
                DeviceResolvePlan::Default
            } else {
                DeviceResolvePlan::Unavailable
            };
        },
    };
    for i in 0..listed_ids.len()
        invariant
            preferred == Some(name),
            name@ != "default"@,
            forall|j: int| 0 <= j < i ==> #[trigger] listed_ids@[j]@ != name@,
    {
        if str_eq(listed_ids[i].as_str(), name) {
            assert(listed_ids@[i as int]@ == name@);
            return DeviceResolvePlan::Exact;
        }
    }
    let ghost ns = views(listed_names@);
    let mut matches: usize = 0;
    for i in 0..listed_names.len()
        invariant
            preferred == Some(name),
            name@ != "default"@,
            forall|j: int| 0 <= j < listed_ids@.len() ==> #[trigger] listed_ids@[j]@ != name@,
            ns == views(listed_names@),
            matches == count_name(ns, name@, i as int),
            matches <= i,
    {
        if str_eq(listed_names[i].as_str(), name) {
            matches = matches + 1;
        }
    }
    if matches > 1 {
        return DeviceResolvePlan::Ambiguous;
    }
    if matches == 1 {
        return DeviceResolvePlan::Exact;
    }
    if has_default {
        DeviceResolvePlan::FallbackDefault
    } else {
        DeviceResolvePlan::Unavailable
    }
}

/// Lists a saved microphone that is no longer present: when `selected_id`
/// names a device (not empty, not `default`) that is not in the list, an
/// unavailable entry for it goes first and the answer is `true`; otherwise
/// the list is unchanged.
pub fn annotate_missing_selection(devices: &mut Vec<InputDeviceInfo>, selected_id: &str) -> (r:
    bool)
    ensures
        r == (selected_id@.len() != 0 && selected_id@ != "default"@ && !exists|i: int|
            0 <= i < old(devices)@.len() && #[trigger] old(devices)@[i].id@ == selected_id@),
        !r ==> final(devices)@ == old(devices)@,
        r ==> final(devices)@.len() == old(devices)@.len() + 1 && final(devices)@.subrange(
            1,
            final(devices)@.len() as int,
        ) == old(devices)@ && final(devices)@[0].id@ == selected_id@ && final(devices)@[0].name@
            == selected_id@ && !final(devices)@[0].is_default && final(devices)@[0].sample_rate
            is None && final(devices)@[0].channels is None && !final(devices)@[0].available,
{
    let sel = chars_of(selected_id);
    if sel.len() == 0 || crate::text::chars_are(sel.as_slice(), "default") {
        return false;
    }
    for i in 0..devices.len()
        invariant
            devices@ == old(devices)@,
            forall|j: int| 0 <= j < i ==> #[trigger] devices@[j].id@ != selected_id@,
    {
        if str_eq(devices[i].id.as_str(), selected_id) {
            return false;
        }
    }
    devices.insert(
        0,
        InputDeviceInfo {
            id: crate::text::owned(selected_id),
            name: crate::text::owned(selected_id),
            is_default: false,
            sample_rate: None,
            channels: None,
            available: false,
        },
    );
    assert(devices@.subrange(1, devices@.len() as int) =~= old(devices)@);
    true
}

} // verus!
