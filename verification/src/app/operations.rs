//! Generation leases that tie asynchronous work to the session that started it.
use vstd::prelude::*;

use crate::app::compare::{compare_listen_name, compare_name, compare_raw_name, compare_stt_name,
    frozen_stt_name};
use crate::app::machine::SessionState;
use crate::error::AppError;
use crate::history::retention::{id_views, is_listed, listed};
use crate::text::{concat_str, opt_view, owned};

verus! {

/// The generation a piece of work was started under, and the recording it
/// works on.
#[derive(Debug, Clone, Copy, PartialEq, Eq)]
pub struct SessionLease {
    pub generation: u64,
    pub recording_id: Option<&'static str>,
}

/// Whether a lease taken at generation `expected` is still live at
/// generation `current`; generation 0 never holds a lease.
pub fn lease_matches(expected: u64, current: u64) -> (r: bool)
    ensures
        r == (expected == current && expected != 0),
{
    expected == current && expected != 0
}

/// Whether a delayed overlay hide scheduled at generation `expected` may
/// still run: only while its lease is live, whatever the session state.
pub fn hide_overlay_allowed(_state: &SessionState, expected: u64, current: u64) -> (r: bool)
    ensures
        r == (expected == current && expected != 0),
{
    lease_matches(expected, current)
}

/// The audio files cleanup must leave alone: those of the live session,
/// those of the filter tools, and those of the model comparison.
pub open spec fn protected_names(
    session_id: Option<Seq<char>>,
    compare_listen_file: Option<Seq<char>>,
    compare_stt_file: Option<Seq<char>>,
    compare_nonce: u64,
    compare_run_id: Option<Seq<char>>,
) -> Seq<Seq<char>> {
    let session = match session_id {
        Some(id) => seq![
            id + ".raw.wav"@,
            id + ".processed.wav"@,
            id + ".raw.wav.tmp"@,
            id + ".wav.tmp"@,
        ],
        None => seq![],
    };
    let tools = seq![
        "filter-sample.wav"@,
        "filter-preview.wav"@,
        "filter-preview-original.wav"@,
    ];
    let listen = match compare_listen_file {
        Some(f) => seq![f],
        None => seq![],
    };
    let stt = match compare_stt_file {
        Some(f) => seq![f],
        None => seq![],
    };
    let takes = if compare_nonce > 0 {
        seq![
            compare_name(compare_nonce, ".listen.wav"@),
            compare_name(compare_nonce, ".stt.wav"@),
            compare_name(compare_nonce, ".raw.wav"@),
        ]
    } else {
        seq![]
    };
    let run = match compare_run_id {
        Some(r) => seq!["model-compare."@ + r + ".stt.wav"@],
        None => seq![],
    };
    session + tools + listen + stt + takes + run
}

fn push_name(out: &mut Vec<String>, name: String)
    ensures
        id_views(final(out)@) == id_views(old(out)@).push(name@),
{
    out.push(name);
    proof {
        assert(id_views(out@) =~= id_views(old(out)@).push(name@));
    }
}

/// The audio file names cleanup must not remove (see `protected_names`);
/// the comparison files are given by file name.
pub fn protected_audio_names(
    session_id: Option<&str>,
    compare_listen_file: Option<&str>,
    compare_stt_file: Option<&str>,
    compare_nonce: u64,
    compare_run_id: Option<&str>,
) -> (r: Vec<String>)
    ensures
        id_views(r@) == protected_names(
            opt_view(session_id),
            opt_view(compare_listen_file),
            opt_view(compare_stt_file),
            compare_nonce,
            opt_view(compare_run_id),
        ),
{
    let mut out: Vec<String> = Vec::new();
    let ghost start = id_views(out@);
    match session_id {
        Some(id) => {
            push_name(&mut out, concat_str(id, ".raw.wav"));
            push_name(&mut out, concat_str(id, ".processed.wav"));
            push_name(&mut out, concat_str(id, ".raw.wav.tmp"));
            push_name(&mut out, concat_str(id, ".wav.tmp"));
        },
        None => {},
    }
    push_name(&mut out, owned("filter-sample.wav"));
    push_name(&mut out, owned("filter-preview.wav"));
    push_name(&mut out, owned("filter-preview-original.wav"));
    match compare_listen_file {
        Some(f) => push_name(&mut out, owned(f)),
        None => {},
    }
    match compare_stt_file {
        Some(f) => push_name(&mut out, owned(f)),
        None => {},
    }
    if compare_nonce > 0 {
        push_name(&mut out, compare_listen_name(compare_nonce));
        push_name(&mut out, compare_stt_name(compare_nonce));
        push_name(&mut out, compare_raw_name(compare_nonce));
    }
    match compare_run_id {
        Some(r) => push_name(&mut out, frozen_stt_name(r)),
        None => {},
    }
    proof {
        assert(start =~= Seq::<Seq<char>>::empty());
        assert(id_views(out@) =~= protected_names(
            opt_view(session_id),
            opt_view(compare_listen_file),
            opt_view(compare_stt_file),
            compare_nonce,
            opt_view(compare_run_id),
        ));
    }
    out
}

/// The recordings deletion must not touch: those being transcribed and
/// that of the live session.
pub fn protected_recording_ids(in_flight: &[String], session_id: Option<&str>) -> (r: Vec<String>)
    ensures
        id_views(r@) == match session_id {
            Some(id) => id_views(in_flight@).push(id@),
            None => id_views(in_flight@),
        },
{
    let mut out: Vec<String> = Vec::new();
    let mut i: usize = 0;
    while i < in_flight.len()
        invariant
            i <= in_flight@.len(),
            id_views(out@) == id_views(in_flight@.take(i as int)),
        decreases in_flight@.len() - i,
    {
        push_name(&mut out, in_flight[i].clone());
        proof {
            assert(id_views(in_flight@.take(i as int + 1)) =~= id_views(in_flight@.take(i as int)).push(
                in_flight@[i as int]@,
            ));
        }
        i = i + 1;
    }
    proof {
        assert(in_flight@.take(in_flight@.len() as int) =~= in_flight@);
    }
    match session_id {
        Some(id) => push_name(&mut out, owned(id)),
        None => {},
    }
    out
}

/// No recording is claimed twice.
pub open spec fn claims_distinct(in_flight: Seq<String>) -> bool {
    forall|i: int, j: int|
        0 <= i < j < in_flight.len() ==> #[trigger] in_flight[i]@ != #[trigger] in_flight[j]@
}

/// Claims a recording for transcription: refused while it is already being
/// transcribed, so that one recording never has two jobs at once.
pub fn begin_transcription(in_flight: &mut Vec<String>, recording_id: &str) -> (r: Result<
    (),
    AppError,
>)
    requires
        claims_distinct(old(in_flight)@),
    ensures
        claims_distinct(final(in_flight)@),
        listed(old(in_flight)@, recording_id@) ==> r == Err::<(), AppError>(
            AppError::TranscriptionInProgress,
        ) && final(in_flight)@ == old(in_flight)@,
        !listed(old(in_flight)@, recording_id@) ==> r is Ok && id_views(final(in_flight)@)
            == id_views(old(in_flight)@).push(recording_id@),
        listed(final(in_flight)@, recording_id@),
{
    if is_listed(in_flight.as_slice(), recording_id) {
        return Err(AppError::TranscriptionInProgress);
    }
    let ghost before = in_flight@;
    in_flight.push(owned(recording_id));
    proof {
        assert(id_views(in_flight@) =~= id_views(before).push(recording_id@));
        assert(in_flight@[before.len() as int]@ == recording_id@);
        assert forall|i: int, j: int| 0 <= i < j < in_flight@.len() implies #[trigger] in_flight@[i]@
            != #[trigger] in_flight@[j]@ by {
            if j == before.len() {
                assert(before[i]@ != recording_id@);
            } else {
                assert(in_flight@[i] == before[i] && in_flight@[j] == before[j]);
            }
        }
    }
    Ok(())
}

/// Whether a new dictation may start: not while any recording is being
/// transcribed.
pub fn start_recording_allowed(in_flight: &Vec<String>) -> (r: Result<(), AppError>)
    ensures
        in_flight@.len() == 0 ==> r is Ok,
        in_flight@.len() > 0 ==> r == Err::<(), AppError>(AppError::TranscriptionInProgress),
{
    if in_flight.len() == 0 {
        Ok(())
    } else {
        Err(AppError::TranscriptionInProgress)
    }
}

/// Releases a recording's claim once its transcription ended.
pub fn finish_transcription(in_flight: &mut Vec<String>, recording_id: &str)
    requires
        claims_distinct(old(in_flight)@),
    ensures
        claims_distinct(final(in_flight)@),
        !listed(final(in_flight)@, recording_id@),
        forall|other: Seq<char>|
            other != recording_id@ ==> (listed(final(in_flight)@, other) <==> listed(
                old(in_flight)@,
                other,
            )),
{
    let ghost before = in_flight@;
    let mut kept: Vec<String> = Vec::new();
    let mut i: usize = 0;
    while i < in_flight.len()
        invariant
            in_flight@ == before,
            claims_distinct(before),
            i <= before.len(),
            forall|k: int| 0 <= k < kept@.len() ==> #[trigger] kept@[k]@ != recording_id@,
            forall|other: Seq<char>|
                other != recording_id@ ==> (listed(kept@, other) <==> exists|j: int|
                    0 <= j < i && #[trigger] before[j]@ == other),
            forall|a: int, b: int|
                0 <= a < b < kept@.len() ==> #[trigger] kept@[a]@ != #[trigger] kept@[b]@,
            forall|k: int|
                0 <= k < kept@.len() ==> exists|j: int|
                    0 <= j < i && #[trigger] before[j]@ == #[trigger] kept@[k]@,
        decreases before.len() - i,
    {
        if !crate::text::str_eq(in_flight[i].as_str(), recording_id) {
            let ghost old_kept = kept@;
            kept.push(in_flight[i].clone());
            proof {
                assert forall|other: Seq<char>| other != recording_id@ implies (listed(kept@, other)
                    <==> exists|j: int| 0 <= j < i + 1 && #[trigger] before[j]@ == other) by {
                    if listed(kept@, other) {
                        let k = choose|k: int|
                            0 <= k < kept@.len() && #[trigger] kept@[k]@ == other;
                        if k < old_kept.len() {
                            assert(old_kept[k]@ == other);
                        } else {
                            assert(before[i as int]@ == other);
                        }
                    }
                    if exists|j: int| 0 <= j < i + 1 && #[trigger] before[j]@ == other {
                        let j = choose|j: int| 0 <= j < i + 1 && #[trigger] before[j]@ == other;
                        if j == i {
                            assert(kept@[old_kept.len() as int]@ == other);
                        } else {
                            assert(listed(old_kept, other));
                            let k = choose|k: int|
                                0 <= k < old_kept.len() && #[trigger] old_kept[k]@ == other;
                            assert(kept@[k]@ == other);
                        }
                    }
                }
                assert forall|a: int, b: int| 0 <= a < b < kept@.len() implies #[trigger] kept@[a]@
                    != #[trigger] kept@[b]@ by {
                    if b == old_kept.len() {
                        assert(kept@[a] == old_kept[a]);
                        let j = choose|j: int|
                            0 <= j < i && #[trigger] before[j]@ == #[trigger] old_kept[a]@;
                        assert(before[j]@ != before[i as int]@);
                    } else {
                        assert(kept@[a] == old_kept[a] && kept@[b] == old_kept[b]);
                    }
                }
                assert forall|k: int| 0 <= k < kept@.len() implies exists|j: int|
                    0 <= j < i + 1 && #[trigger] before[j]@ == #[trigger] kept@[k]@ by {
                    if k == old_kept.len() {
                        assert(before[i as int]@ == kept@[k]@);
                    } else {
                        assert(kept@[k] == old_kept[k]);
                        let j = choose|j: int|
                            0 <= j < i && #[trigger] before[j]@ == #[trigger] old_kept[k]@;
                        assert(before[j]@ == kept@[k]@);
                    }
                }
            }
        } else {
            proof {
                assert forall|other: Seq<char>| other != recording_id@ implies (listed(kept@, other)
                    <==> exists|j: int| 0 <= j < i + 1 && #[trigger] before[j]@ == other) by {
                    if exists|j: int| 0 <= j < i + 1 && #[trigger] before[j]@ == other {
                        let j = choose|j: int| 0 <= j < i + 1 && #[trigger] before[j]@ == other;
                        assert(j != i);
                    }
                }
            }
        }
        i = i + 1;
    }
    *in_flight = kept;
}

} // verus!
