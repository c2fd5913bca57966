//! Summaries of stage timings for the dictation benchmarks.
use vstd::prelude::*;
use vstd::multiset::Multiset;

use crate::text::{decimal, extend_str, push_decimal, string_from_chars};

verus! {

broadcast use {vstd::seq_lib::group_seq_properties, vstd::multiset::group_multiset_axioms};

/// Median milliseconds of each benchmark stage.
#[derive(Debug, Clone, Copy)]
pub struct StageMs {
    pub dsp: u128,
    pub downsample: u128,
    pub wav: u128,
    pub bundle: u128,
}

/// `s` is in ascending order.
pub open spec fn sorted(s: Seq<u128>) -> bool {
    forall|i: int, j: int| 0 <= i <= j < s.len() ==> s[i] <= s[j]
}

proof fn lemma_swap_multiset(s: Seq<u128>, i: int, j: int)
    requires
        0 <= i < s.len(),
        0 <= j < s.len(),
    ensures
        s.update(i, s[j]).update(j, s[i]).to_multiset() == s.to_multiset(),
{
    vstd::seq_lib::to_multiset_update(s, i, s[j]);
    let s1 = s.update(i, s[j]);
    vstd::seq_lib::to_multiset_update(s1, j, s[i]);
    if i == j {
        assert(s.update(i, s[j]).update(j, s[i]) =~= s);
    } else {
        assert(s1[j] == s[j]);
        assert(s.to_multiset().insert(s[j]).remove(s[i]).insert(s[i]).remove(s[j]) =~= s.to_multiset());
    }
}

/// Sorts `times` ascending (selection sort): the result is sorted and holds
/// the same values.
fn sort_times(times: &mut [u128])
    ensures
        sorted(final(times)@),
        final(times)@.to_multiset() == old(times)@.to_multiset(),
        final(times)@.len() == old(times)@.len(),
{
    let n = times.len();
    for i in 0..n
        invariant
            n == times@.len(),
            times@.len() == old(times)@.len(),
            times@.to_multiset() == old(times)@.to_multiset(),
            forall|a: int, b: int| 0 <= a <= b < i ==> times@[a] <= times@[b],
            forall|a: int, b: int| 0 <= a < i && i <= b < n ==> times@[a] <= times@[b],
    {
        let mut m = i;
        for k in i + 1..n
            invariant
                n == times@.len(),
                i <= m < n,
                i < k || k == i + 1,
                forall|b: int| i <= b < k ==> times@[m as int] <= times@[b],
        {
            if times[k] < times[m] {
                m = k;
            }
        }
        let vi = times[i];
        let vm = times[m];
        proof {
            lemma_swap_multiset(times@, i as int, m as int);
        }
        times[i] = vm;
        times[m] = vi;
    }
}

/// The median of `times` (the upper one for an even count), after sorting
/// `times` in place.
pub fn median_ms(times: &mut [u128]) -> (r: u128)
    requires
        old(times)@.len() > 0,
    ensures
        sorted(final(times)@),
        final(times)@.to_multiset() == old(times)@.to_multiset(),
        final(times)@.len() == old(times)@.len(),
        r == final(times)@[(final(times)@.len() / 2) as int],
{
    sort_times(times);
    times[times.len() / 2]
}

/// The index of the 95th percentile among `n > 0` sorted values:
/// `ceil(0.95 * (n - 1))`.
pub open spec fn p95_index(n: int) -> int {
    (95 * (n - 1) + 99) / 100
}

/// The 95th-percentile value of `times` (0 when empty), after sorting
/// `times` in place.
pub fn p95_ms(times: &mut [u128]) -> (r: u128)
    ensures
        old(times)@.len() == 0 ==> r == 0 && final(times)@ == old(times)@,
        old(times)@.len() > 0 ==> sorted(final(times)@) && final(times)@.to_multiset() == old(
            times,
        )@.to_multiset() && final(times)@.len() == old(times)@.len() && r == final(times)@[p95_index(
            old(times)@.len() as int,
        )],
{
    if times.len() == 0 {
        return 0;
    }
    sort_times(times);
    let n = times.len();
    let idx: usize = ((95 * (n as u128 - 1) + 99) / 100) as usize;
    let idx = if idx < n - 1 {
        idx
    } else {
        n - 1
    };
    times[idx]
}

/// One line of the benchmark report.
pub open spec fn report_line(label: Seq<char>, s: StageMs) -> Seq<char> {
    label + " dsp="@ + decimal(s.dsp as nat) + "ms down="@ + decimal(s.downsample as nat)
        + "ms wav="@ + decimal(s.wav as nat) + "ms bundle="@ + decimal(s.bundle as nat) + "ms"@
}

/// Formats one line of the benchmark report.
pub fn format_report(label: &str, stages: StageMs) -> (r: String)
    ensures
        r@ == report_line(label@, stages),
{
    let mut v: Vec<char> = Vec::new();
    extend_str(&mut v, label);
    extend_str(&mut v, " dsp=");
    push_decimal(&mut v, stages.dsp);
    extend_str(&mut v, "ms down=");
    push_decimal(&mut v, stages.downsample);
    extend_str(&mut v, "ms wav=");
    push_decimal(&mut v, stages.wav);
    extend_str(&mut v, "ms bundle=");
    push_decimal(&mut v, stages.bundle);
    extend_str(&mut v, "ms");
    string_from_chars(v.as_slice())
}

/// A pause of `ms` milliseconds as the millisecond count a timer takes,
/// which keeps the low 64 bits of a larger count.
pub fn wait_ms(ms: u128) -> (r: u64)
    ensures
        r == ms % 0x1_0000_0000_0000_0000,
{
    let r = ms as u64;
    assert(r == ms % 0x1_0000_0000_0000_0000) by (bit_vector)
        requires
            r == ms as u64,
    ;
    r
}

} // verus!
