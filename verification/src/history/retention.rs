//! How long recordings are kept, which recordings a retention pass or a
//! full delete removes, and which audio files orphan cleanup removes.
use vstd::prelude::*;

use crate::error::AppError;
use crate::history::repository::RecordingRecord;
use crate::text::{chars_are, chars_of, ends_with, ends_with_str, starts_with, starts_with_str,
    str_eq};

verus! {

/// How long recordings are kept.
#[derive(Debug, Clone, Copy, PartialEq, Eq)]
pub enum Retention {
    Days(u32),
    Forever,
}

/// The outcome of deleting every recording.
#[derive(Debug, Clone, PartialEq)]
pub struct DeleteAllResult {
    pub deleted: Vec<String>,
    pub failed: Vec<String>,
}

/// The retention a setting names; anything unknown keeps recordings forever.
pub open spec fn retention_of(value: Seq<char>) -> Retention {
    if value == "1d"@ {
        Retention::Days(1)
    } else if value == "3d"@ {
        Retention::Days(3)
    } else if value == "7d"@ {
        Retention::Days(7)
    } else if value == "30d"@ {
        Retention::Days(30)
    } else if value == "90d"@ {
        Retention::Days(90)
    } else {
        Retention::Forever
    }
}

impl Retention {
    /// Reads the retention setting (`1d`, `3d`, `7d`, `30d`, `90d`).
    pub fn from_setting(value: &str) -> (r: Self)
        ensures
            r == retention_of(value@),
    {
        let v = chars_of(value);
        if chars_are(v.as_slice(), "1d") {
            Retention::Days(1)
        } else if chars_are(v.as_slice(), "3d") {
            Retention::Days(3)
        } else if chars_are(v.as_slice(), "7d") {
            Retention::Days(7)
        } else if chars_are(v.as_slice(), "30d") {
            Retention::Days(30)
        } else if chars_are(v.as_slice(), "90d") {
            Retention::Days(90)
        } else {
            Retention::Forever
        }
    }
}

/// WAV files of the filter tools and of model comparisons, which cleanup
/// keeps though no recording refers to them.
pub open spec fn temp_wav_kept(name: Seq<char>) -> bool {
    name == "filter-sample.wav"@ || starts_with(name, "filter-preview"@) || starts_with(
        name,
        "model-compare."@,
    )
}

/// Whether cleanup keeps this unreferenced WAV file.
pub fn keep_temp_wav(name: &str) -> (r: bool)
    ensures
        r == temp_wav_kept(name@),
{
    let c = chars_of(name);
    chars_are(c.as_slice(), "filter-sample.wav") || starts_with_str(c.as_slice(), "filter-preview")
        || starts_with_str(c.as_slice(), "model-compare.")
}

/// Whether `name` is one of `names`.
pub open spec fn listed(names: Seq<String>, name: Seq<char>) -> bool {
    exists|i: int| 0 <= i < names.len() && #[trigger] names[i]@ == name
}

pub(crate) fn is_listed(names: &[String], name: &str) -> (r: bool)
    ensures
        r == listed(names@, name@),
{
    for i in 0..names.len()
        invariant
            forall|j: int| 0 <= j < i ==> #[trigger] names@[j]@ != name@,
    {
        if str_eq(names[i].as_str(), name) {
            return true;
        }
    }
    false
}

/// Orphan cleanup's rule for one file of the audio folder: protected names
/// stay; temporary files go; a WAV file goes when no recording refers to it
/// and the filter tools and comparisons do not use it.
pub open spec fn removes_audio_file(name: Seq<char>, kept: Seq<String>, protected: Seq<String>) -> bool {
    if listed(protected, name) {
        false
    } else if ends_with(name, ".tmp"@) || ends_with(name, ".wav.tmp"@) {
        true
    } else {
        !listed(kept, name) && ends_with(name, ".wav"@) && !temp_wav_kept(name)
    }
}

/// Whether orphan cleanup deletes the audio file `name`, given the file
/// names recordings refer to (`kept`) and those in use (`protected`).
pub fn should_remove_audio_file(name: &str, kept: &[String], protected: &[String]) -> (r: bool)
    ensures
        r == removes_audio_file(name@, kept@, protected@),
{
    if is_listed(protected, name) {
        return false;
    }
    let c = chars_of(name);
    if ends_with_str(c.as_slice(), ".tmp") || ends_with_str(c.as_slice(), ".wav.tmp") {
        return true;
    }
    !is_listed(kept, name) && ends_with_str(c.as_slice(), ".wav") && !keep_temp_wav(name)
}

/// The names of a listing of the audio folder that orphan cleanup removes,
/// in order.
pub open spec fn orphans(names: Seq<String>, kept: Seq<String>, protected: Seq<String>) -> Seq<
    Seq<char>,
>
    decreases names.len(),
{
    if names.len() == 0 {
        seq![]
    } else {
        let rest = orphans(names.drop_last(), kept, protected);
        if removes_audio_file(names.last()@, kept, protected) {
            rest.push(names.last()@)
        } else {
            rest
        }
    }
}

/// The files of the audio folder listing `names` that orphan cleanup
/// removes, given the file names recordings refer to and those in use.
pub fn orphan_files(names: &[String], kept: &[String], protected: &[String]) -> (r: Vec<String>)
    ensures
        id_views(r@) == orphans(names@, kept@, protected@),
{
    let mut out: Vec<String> = Vec::new();
    let mut i: usize = 0;
    while i < names.len()
        invariant
            i <= names@.len(),
            id_views(out@) == orphans(names@.take(i as int), kept@, protected@),
        decreases names@.len() - i,
    {
        proof {
            assert(names@.take(i as int + 1).drop_last() =~= names@.take(i as int));
        }
        if should_remove_audio_file(names[i].as_str(), kept, protected) {
            out.push(names[i].clone());
            proof {
                assert(id_views(out@) =~= orphans(names@.take(i as int), kept@, protected@).push(
                    names@[i as int]@,
                ));
            }
        }
        i = i + 1;
    }
    proof {
        assert(names@.take(names@.len() as int) =~= names@);
    }
    out
}

// ---------------------------------------------------------------------------
// Deleting recordings
// ---------------------------------------------------------------------------
/// The text of each id.
pub open spec fn id_views(ids: Seq<String>) -> Seq<Seq<char>> {
    ids.map_values(|s: String| s@)
}

/// A pass over the first `k` of `ids` that keeps the protected ones and
/// asks to delete each other one, given the answers its deletions got in
/// order: the ids asked for, the ids deleted, and the ids that stay
/// (protected, not found, or failed).
pub open spec fn sweep(ids: Seq<String>, protected: Seq<String>, answers: Seq<Option<bool>>, k: nat) -> (
    Seq<Seq<char>>,
    Seq<Seq<char>>,
    Seq<Seq<char>>,
)
    decreases k,
{
    if k == 0 {
        (seq![], seq![], seq![])
    } else {
        let p = sweep(ids, protected, answers, (k - 1) as nat);
        let id = ids[k - 1]@;
        if listed(protected, id) {
            (p.0, p.1, p.2.push(id))
        } else if answers[p.0.len() as int] == Some(true) {
            (p.0.push(id), p.1.push(id), p.2)
        } else {
            (p.0.push(id), p.1, p.2.push(id))
        }
    }
}

/// Answers beyond those a pass used do not change it.
proof fn lemma_sweep_stable(
    ids: Seq<String>,
    protected: Seq<String>,
    answers: Seq<Option<bool>>,
    more: Seq<Option<bool>>,
    k: nat,
)
    requires
        sweep(ids, protected, answers, k).0.len() <= answers.len(),
    ensures
        sweep(ids, protected, answers + more, k) == sweep(ids, protected, answers, k),
    decreases k,
{
    if k > 0 {
        let p = sweep(ids, protected, answers, (k - 1) as nat);
        assert(p.0.len() <= sweep(ids, protected, answers, k).0.len());
        lemma_sweep_stable(ids, protected, answers, more, (k - 1) as nat);
        if !listed(protected, ids[k - 1]@) {
            assert((answers + more)[p.0.len() as int] == answers[p.0.len() as int]);
        }
    }
}

fn answer_of(r: &Result<bool, AppError>) -> (a: Option<bool>)
    ensures
        a == match r {
            Ok(b) => Some(*b),
            Err(_) => None,
        },
{
    match r {
        Ok(b) => Some(*b),
        Err(_) => None,
    }
}

/// Where a deletion pass over a list of recordings stands: the next one to
/// look at, the ids deleted and those that stay so far, and the answers
/// its deletions got (`Some(deleted)`, or `None` for an error).
pub struct SweepState {
    pub next: usize,
    pub deleted: Vec<String>,
    pub kept: Vec<String>,
    pub answers: Ghost<Seq<Option<bool>>>,
}

/// The pass state is the one `sweep` gives for the recordings looked at.
pub open spec fn sweep_state_ok(ids: Seq<String>, protected: Seq<String>, st: SweepState) -> bool {
    let s = sweep(ids, protected, st.answers@, st.next as nat);
    &&& st.next <= ids.len()
    &&& s.0.len() == st.answers@.len()
    &&& id_views(st.deleted@) == s.1
    &&& id_views(st.kept@) == s.2
}

/// A deletion pass that has looked at nothing yet.
pub fn sweep_start() -> (r: SweepState)
    ensures
        r.next == 0,
        r.deleted@.len() == 0,
        r.kept@.len() == 0,
        r.answers@.len() == 0,
{
    let answers: Ghost<Seq<Option<bool>>> = Ghost(Seq::empty());
    SweepState { next: 0, deleted: Vec::new(), kept: Vec::new(), answers }
}

/// The next recording a deletion pass asks the store to delete: it passes
/// over protected recordings, which stay, and gives the next unprotected
/// one, or none when the list is done. The store is asked to delete
/// exactly the ids this gives, and its answer goes to `sweep_record`.
pub fn sweep_next(ids: &[String], protected: &[String], st: &mut SweepState) -> (r: Option<String>)
    requires
        sweep_state_ok(ids@, protected@, *old(st)),
    ensures
        sweep_state_ok(ids@, protected@, *final(st)),
        final(st).answers@ == old(st).answers@,
        old(st).next <= final(st).next,
        forall|j: int| old(st).next <= j < final(st).next ==> listed(protected@, #[trigger] ids@[j]@),
        match r {
            Some(id) => final(st).next < ids@.len() && id@ == ids@[final(st).next as int]@ && !listed(
                protected@,
                id@,
            ),
            None => final(st).next == ids@.len(),
        },
{
    let ghost start = st.next;
    while st.next < ids.len() && is_listed(protected, ids[st.next].as_str())
        invariant
            sweep_state_ok(ids@, protected@, *st),
            st.answers@ == old(st).answers@,
            start == old(st).next,
            start <= st.next,
            forall|j: int| start <= j < st.next ==> listed(protected@, #[trigger] ids@[j]@),
        decreases ids@.len() - st.next,
    {
        let ghost before = st.kept@;
        let id = ids[st.next].clone();
        st.kept.push(id);
        proof {
            assert(id_views(st.kept@) =~= id_views(before).push(ids@[st.next as int]@));
        }
        st.next = st.next + 1;
    }
    if st.next < ids.len() {
        Some(ids[st.next].clone())
    } else {
        None
    }
}

/// Records what the store answered to the deletion `sweep_next` asked for:
/// a deleted recording joins the deleted ones, any other answer leaves it
/// among those that stay; the pass moves on.
pub fn sweep_record(ids: &[String], protected: &[String], st: &mut SweepState, answer: &Result<bool, AppError>)
    requires
        sweep_state_ok(ids@, protected@, *old(st)),
        old(st).next < ids@.len(),
        !listed(protected@, ids@[old(st).next as int]@),
    ensures
        sweep_state_ok(ids@, protected@, *final(st)),
        final(st).next == old(st).next + 1,
        final(st).answers@ == old(st).answers@.push(match answer {
            Ok(b) => Some(*b),
            Err(_) => None,
        }),
{
    let a = answer_of(answer);
    let ghost before = st.answers@;
    let ghost d0 = st.deleted@;
    let ghost k0 = st.kept@;
    proof {
        lemma_sweep_stable(ids@, protected@, before, seq![a], st.next as nat);
    }
    let id = ids[st.next].clone();
    match answer {
        Ok(true) => {
            st.deleted.push(id);
            proof {
                assert(id_views(st.deleted@) =~= id_views(d0).push(ids@[st.next as int]@));
            }
        },
        _ => {
            st.kept.push(id);
            proof {
                assert(id_views(st.kept@) =~= id_views(k0).push(ids@[st.next as int]@));
            }
        },
    }
    st.answers = Ghost(before + seq![a]);
    proof {
        assert((before + seq![a])[before.len() as int] == a);
        assert(before + seq![a] =~= before.push(a));
    }
    st.next = st.next + 1;
}

/// The outcome of a delete-all pass that went over every recording.
pub fn delete_all_result(ids: &[String], protected: &[String], st: SweepState) -> (r: DeleteAllResult)
    requires
        sweep_state_ok(ids@, protected@, st),
        st.next == ids@.len(),
    ensures
        id_views(r.deleted@) == sweep(ids@, protected@, st.answers@, ids@.len()).1,
        id_views(r.failed@) == sweep(ids@, protected@, st.answers@, ids@.len()).2,
{
    DeleteAllResult { deleted: st.deleted, failed: st.kept }
}

/// A pass never asks to delete a protected recording, and each recording it
/// goes over ends up either deleted or staying, never both.
pub proof fn law_sweep_spares_protected(
    ids: Seq<String>,
    protected: Seq<String>,
    answers: Seq<Option<bool>>,
    k: nat,
)
    ensures
        forall|j: int|
            0 <= j < sweep(ids, protected, answers, k).0.len() ==> !listed(
                protected,
                #[trigger] sweep(ids, protected, answers, k).0[j],
            ),
        sweep(ids, protected, answers, k).1.len() + sweep(ids, protected, answers, k).2.len() == k,
    decreases k,
{
    if k > 0 {
        law_sweep_spares_protected(ids, protected, answers, (k - 1) as nat);
        let p = sweep(ids, protected, answers, (k - 1) as nat);
        let s = sweep(ids, protected, answers, k);
        assert forall|j: int| 0 <= j < s.0.len() implies !listed(protected, #[trigger] s.0[j]) by {
            if j < p.0.len() {
                assert(s.0[j] == p.0[j]);
            }
        }
    }
}

/// A storage-cap pass over the first `k` recordings, oldest first, with
/// their sizes and the bytes all recordings take: while those bytes exceed
/// the cap, it asks to delete each unprotected recording and takes the size
/// of each one deleted off the count (down to zero); it stops at the first
/// recording it meets with the count within the cap, and after a deletion
/// that failed. Gives the count, whether it stopped, the ids asked for and
/// the ids deleted.
pub open spec fn evict(
    ids: Seq<String>,
    sizes: Seq<u64>,
    protected: Seq<String>,
    limit: u64,
    total: u64,
    answers: Seq<Option<bool>>,
    k: nat,
) -> (int, bool, Seq<Seq<char>>, Seq<Seq<char>>)
    decreases k,
{
    if k == 0 {
        (total as int, false, seq![], seq![])
    } else {
        let p = evict(ids, sizes, protected, limit, total, answers, (k - 1) as nat);
        let id = ids[k - 1]@;
        if p.1 || p.0 <= limit {
            (p.0, true, p.2, p.3)
        } else if listed(protected, id) {
            p
        } else {
            let asked = p.2.push(id);
            match answers[p.2.len() as int] {
                Some(true) => (
                    if p.0 >= sizes[k - 1] {
                        p.0 - sizes[k - 1]
                    } else {
                        0
                    },
                    false,
                    asked,
                    p.3.push(id),
                ),
                Some(false) => (p.0, false, asked, p.3),
                None => (p.0, true, asked, p.3),
            }
        }
    }
}

/// Answers beyond those a storage pass used do not change it.
proof fn lemma_evict_stable(
    ids: Seq<String>,
    sizes: Seq<u64>,
    protected: Seq<String>,
    limit: u64,
    total: u64,
    answers: Seq<Option<bool>>,
    more: Seq<Option<bool>>,
    k: nat,
)
    requires
        evict(ids, sizes, protected, limit, total, answers, k).2.len() <= answers.len(),
    ensures
        evict(ids, sizes, protected, limit, total, answers + more, k) == evict(
            ids,
            sizes,
            protected,
            limit,
            total,
            answers,
            k,
        ),
    decreases k,
{
    if k > 0 {
        let p = evict(ids, sizes, protected, limit, total, answers, (k - 1) as nat);
        assert(p.2.len() <= evict(ids, sizes, protected, limit, total, answers, k).2.len());
        lemma_evict_stable(ids, sizes, protected, limit, total, answers, more, (k - 1) as nat);
        if !(p.1 || p.0 <= limit) && !listed(protected, ids[k - 1]@) {
            assert((answers + more)[p.2.len() as int] == answers[p.2.len() as int]);
        }
    }
}

/// A stopped storage pass stays as it is.
proof fn lemma_evict_stays_stopped(
    ids: Seq<String>,
    sizes: Seq<u64>,
    protected: Seq<String>,
    limit: u64,
    total: u64,
    answers: Seq<Option<bool>>,
    k: nat,
    m: nat,
)
    requires
        k <= m,
        evict(ids, sizes, protected, limit, total, answers, k).1,
    ensures
        evict(ids, sizes, protected, limit, total, answers, m) == evict(
            ids,
            sizes,
            protected,
            limit,
            total,
            answers,
            k,
        ),
    decreases m - k,
{
    if m > k {
        lemma_evict_stays_stopped(ids, sizes, protected, limit, total, answers, k, (m - 1) as nat);
    }
}

/// Where a storage-cap pass stands: the next recording to look at, the
/// bytes still counted, whether it stopped, the ids deleted, and the
/// answers its deletions got.
pub struct EvictState {
    pub next: usize,
    pub bytes: u64,
    pub stopped: bool,
    pub deleted: Vec<String>,
    pub answers: Ghost<Seq<Option<bool>>>,
}

/// The pass state is the one `evict` gives for the recordings looked at.
pub open spec fn evict_state_ok(
    ids: Seq<String>,
    sizes: Seq<u64>,
    protected: Seq<String>,
    limit: u64,
    total: u64,
    st: EvictState,
) -> bool {
    let e = evict(ids, sizes, protected, limit, total, st.answers@, st.next as nat);
    &&& ids.len() == sizes.len()
    &&& st.next <= ids.len()
    &&& e.0 == st.bytes
    &&& e.1 == st.stopped
    &&& e.2.len() == st.answers@.len()
    &&& e.3 == id_views(st.deleted@)
}

/// A storage-cap pass that has looked at nothing yet, with `total` bytes.
pub fn evict_start(total: u64) -> (r: EvictState)
    ensures
        r.next == 0,
        r.bytes == total,
        !r.stopped,
        r.deleted@.len() == 0,
        r.answers@.len() == 0,
{
    let answers: Ghost<Seq<Option<bool>>> = Ghost(Seq::empty());
    EvictState { next: 0, bytes: total, stopped: false, deleted: Vec::new(), answers }
}

/// The next recording a storage-cap pass (see `evict`) asks the store to
/// delete, oldest first: none once the bytes are within the cap or the
/// pass stopped, else the next unprotected recording (protected ones are
/// passed over). When it gives none, the pass is over and its deleted ids
/// are those `evict` gives for the whole list.
pub fn evict_next(
    ids: &[String],
    sizes: &[u64],
    protected: &[String],
    limit: u64,
    total: u64,
    st: &mut EvictState,
) -> (r: Option<String>)
    requires
        evict_state_ok(ids@, sizes@, protected@, limit, total, *old(st)),
    ensures
        evict_state_ok(ids@, sizes@, protected@, limit, total, *final(st)),
        final(st).answers@ == old(st).answers@,
        match r {
            Some(id) => final(st).next < ids@.len() && !final(st).stopped && final(st).bytes > limit
                && id@ == ids@[final(st).next as int]@ && !listed(protected@, id@),
            None => id_views(final(st).deleted@) == evict(
                ids@,
                sizes@,
                protected@,
                limit,
                total,
                final(st).answers@,
                ids@.len(),
            ).3,
        },
{
    while !st.stopped && st.next < ids.len()
        invariant
            evict_state_ok(ids@, sizes@, protected@, limit, total, *st),
            st.answers@ == old(st).answers@,
        decreases ids@.len() - st.next,
    {
        if st.bytes <= limit {
            st.stopped = true;
            st.next = st.next + 1;
        } else if is_listed(protected, ids[st.next].as_str()) {
            st.next = st.next + 1;
        } else {
            return Some(ids[st.next].clone());
        }
    }
    proof {
        if st.next < ids.len() {
            lemma_evict_stays_stopped(
                ids@,
                sizes@,
                protected@,
                limit,
                total,
                st.answers@,
                st.next as nat,
                ids@.len(),
            );
        }
    }
    None
}

/// Records what the store answered to the deletion `evict_next` asked for:
/// a deleted recording joins the deleted ones and its bytes come off the
/// count (down to zero); a recording that was not there changes nothing; a
/// failed deletion stops the pass. The pass moves on.
pub fn evict_record(
    ids: &[String],
    sizes: &[u64],
    protected: &[String],
    limit: u64,
    total: u64,
    st: &mut EvictState,
    answer: &Result<bool, AppError>,
)
    requires
        evict_state_ok(ids@, sizes@, protected@, limit, total, *old(st)),
        old(st).next < ids@.len(),
        !old(st).stopped,
        old(st).bytes > limit,
        !listed(protected@, ids@[old(st).next as int]@),
    ensures
        evict_state_ok(ids@, sizes@, protected@, limit, total, *final(st)),
        final(st).next == old(st).next + 1,
        final(st).answers@ == old(st).answers@.push(match answer {
            Ok(b) => Some(*b),
            Err(_) => None,
        }),
{
    let a = answer_of(answer);
    let ghost before = st.answers@;
    let ghost d0 = st.deleted@;
    proof {
        lemma_evict_stable(ids@, sizes@, protected@, limit, total, before, seq![a], st.next as nat);
    }
    let i = st.next;
    let n = ids.len();
    assert(i < n);
    match answer {
        Ok(true) => {
            let id = ids[i].clone();
            st.deleted.push(id);
            proof {
                assert(id_views(st.deleted@) =~= id_views(d0).push(ids@[i as int]@));
            }
            st.bytes = if st.bytes >= sizes[i] {
                st.bytes - sizes[i]
            } else {
                0
            };
        },
        Ok(false) => {},
        Err(_) => {
            st.stopped = true;
        },
    }
    st.answers = Ghost(before + seq![a]);
    proof {
        assert((before + seq![a])[before.len() as int] == a);
        assert(before + seq![a] =~= before.push(a));
    }
    st.next = i + 1;
}

/// A storage pass never asks to delete a protected recording, and it asks
/// for a deletion only while the count of bytes exceeds the cap.
pub proof fn law_eviction_spares_protected(
    ids: Seq<String>,
    sizes: Seq<u64>,
    protected: Seq<String>,
    limit: u64,
    total: u64,
    answers: Seq<Option<bool>>,
    k: nat,
)
    ensures
        forall|j: int|
            0 <= j < evict(ids, sizes, protected, limit, total, answers, k).2.len() ==> !listed(
                protected,
                #[trigger] evict(ids, sizes, protected, limit, total, answers, k).2[j],
            ),
        total <= limit ==> evict(ids, sizes, protected, limit, total, answers, k).2.len() == 0,
    decreases k,
{
    if k > 0 {
        law_eviction_spares_protected(ids, sizes, protected, limit, total, answers, (k - 1) as nat);
        let p = evict(ids, sizes, protected, limit, total, answers, (k - 1) as nat);
        let e = evict(ids, sizes, protected, limit, total, answers, k);
        assert forall|j: int| 0 <= j < e.2.len() implies !listed(protected, #[trigger] e.2[j]) by {
            if j < p.2.len() {
                assert(e.2[j] == p.2[j]);
            }
        }
        if total <= limit {
            lemma_evict_count_within(ids, sizes, protected, limit, total, answers, (k - 1) as nat);
        }
    }
}

proof fn lemma_evict_count_within(
    ids: Seq<String>,
    sizes: Seq<u64>,
    protected: Seq<String>,
    limit: u64,
    total: u64,
    answers: Seq<Option<bool>>,
    k: nat,
)
    requires
        total <= limit,
    ensures
        evict(ids, sizes, protected, limit, total, answers, k).0 == total,
        evict(ids, sizes, protected, limit, total, answers, k).2.len() == 0,
    decreases k,
{
    if k > 0 {
        lemma_evict_count_within(ids, sizes, protected, limit, total, answers, (k - 1) as nat);
    }
}

/// A day in milliseconds.
pub const DAY_MS: i64 = 86_400_000;

/// The age limit of a retention pass run at `now_ms` (milliseconds since
/// the Unix epoch): recordings created before it expire; none under
/// `Forever`.
pub fn retention_cutoff_ms(retention: Retention, now_ms: i64) -> (r: Option<i64>)
    requires
        retention matches Retention::Days(d) ==> now_ms - d * DAY_MS >= i64::MIN,
    ensures
        match retention {
            Retention::Days(d) => r == Some((now_ms - d * DAY_MS) as i64),
            Retention::Forever => r is None,
        },
{
    match retention {
        Retention::Days(d) => {
            let span: i64 = (d as i64) * DAY_MS;
            Some(now_ms - span)
        },
        Retention::Forever => None,
    }
}

/// The ids of the recordings created before `cutoff_ms`, in order.
pub open spec fn older_ids(records: Seq<RecordingRecord>, cutoff_ms: i64) -> Seq<Seq<char>>
    decreases records.len(),
{
    if records.len() == 0 {
        seq![]
    } else {
        let rest = older_ids(records.drop_last(), cutoff_ms);
        if records.last().created_at_ms < cutoff_ms {
            rest.push(records.last().id@)
        } else {
            rest
        }
    }
}

/// The recordings an age cutoff expires: those created strictly before it,
/// by id, in the order given.
pub fn expired_by_age(records: &[RecordingRecord], cutoff_ms: i64) -> (r: Vec<String>)
    ensures
        id_views(r@) == older_ids(records@, cutoff_ms),
{
    let mut out: Vec<String> = Vec::new();
    let mut i: usize = 0;
    while i < records.len()
        invariant
            i <= records@.len(),
            id_views(out@) == older_ids(records@.take(i as int), cutoff_ms),
        decreases records@.len() - i,
    {
        proof {
            assert(records@.take(i + 1).drop_last() =~= records@.take(i as int));
            assert(records@.take(i + 1).last() == records@[i as int]);
        }
        if records[i].created_at_ms < cutoff_ms {
            let id = records[i].id.clone();
            out.push(id);
            proof {
                assert(id_views(out@) =~= id_views(out@.drop_last()).push(id@));
            }
        }
        i = i + 1;
    }
    proof {
        assert(records@.take(records@.len() as int) =~= records@);
    }
    out
}

/// Each documented retention setting keeps recordings for its own number
/// of days, and only a value that is none of them keeps them forever.
pub proof fn law_retention_settings_name_their_days(value: Seq<char>)
    ensures
        retention_of("1d"@) == Retention::Days(1),
        retention_of("3d"@) == Retention::Days(3),
        retention_of("7d"@) == Retention::Days(7),
        retention_of("30d"@) == Retention::Days(30),
        retention_of("90d"@) == Retention::Days(90),
        value != "1d"@ && value != "3d"@ && value != "7d"@ && value != "30d"@ && value != "90d"@
            ==> retention_of(value) == Retention::Forever,
        retention_of(value) matches Retention::Days(d) ==> (d == 1 || d == 3 || d == 7 || d == 30 || d == 90),
{
    reveal_strlit("1d");
    reveal_strlit("3d");
    reveal_strlit("7d");
    reveal_strlit("30d");
    reveal_strlit("90d");
    assert("3d"@[0] != "1d"@[0]);
    assert("7d"@[0] != "1d"@[0] && "7d"@[0] != "3d"@[0]);
    assert("30d"@.len() != "1d"@.len() && "30d"@.len() != "3d"@.len() && "30d"@.len() != "7d"@.len());
    assert("90d"@.len() != "1d"@.len() && "90d"@.len() != "3d"@.len() && "90d"@.len() != "7d"@.len());
    assert("90d"@[0] != "30d"@[0]);
}

} // verus!
