//! Delivering a transcript to the window that had focus: policy, key
//! planning, chunking, and the insert procedure itself.
use vstd::prelude::*;

use crate::error::AppError;
use crate::text::{chars_are, chars_eq_ignore_case, chars_of, eq_ignore_case, lower, lower_chars,
    opt_view, split_chars, split_on, starts_with, starts_with_str, str_eq, trim, trim_chars};

verus! {

/// A raw window handle.
#[derive(Debug, Clone, Copy, PartialEq, Eq, Structural)]
pub struct NativeHwnd {
    pub value: usize,
}

/// The window captured when dictation started.
#[derive(Debug, Clone, Copy, PartialEq, Eq, Structural)]
pub struct CapturedTarget {
    pub hwnd: usize,
    pub root: usize,
    pub pid: u32,
    pub tid: u32,
    pub generation: u64,
}

impl CapturedTarget {
    /// A target made of a handle and its root, process, thread and session
    /// generation.
    pub fn from_hwnd(hwnd: NativeHwnd, root: usize, pid: u32, tid: u32, generation: u64) -> (r: Self)
        ensures
            r == (CapturedTarget { hwnd: hwnd.value, root, pid, tid, generation }),
    {
        CapturedTarget { hwnd: hwnd.value, root, pid, tid, generation }
    }
}

/// Why the text went to the clipboard instead of being typed.
#[derive(Debug, Clone, Copy, PartialEq, Eq, Structural)]
pub enum CopyReason {
    UserSwitched,
    NoTarget,
    TargetGone,
    Minimized,
    IntegrityBlocked,
    SendBlocked,
    ClipboardMode,
    ClipboardBusy,
}

/// How the text will be delivered.
#[derive(Debug, Clone, Copy, PartialEq, Eq, Structural)]
pub enum InsertPolicy {
    SendUnicode,
    RestoreThenSend,
    CopyOnly(CopyReason),
}

/// How delivery ended.
#[derive(Debug, Clone, Copy, PartialEq, Eq, Structural)]
pub enum InsertOutcome {
    Inserted,
    Copied { reason: CopyReason },
    PartialCopied,
    CancelledBeforeDelivery,
    Failed,
}

/// One synthesized key: a UTF-16 unit or a virtual key.
#[derive(Debug, Clone, Copy, PartialEq, Eq, Structural)]
pub enum InsertKey {
    Unicode(u16),
    VirtualKey(u16),
}

/// What the desktop looks like at one moment.
#[derive(Debug, Clone, PartialEq, Eq)]
pub struct WorldSnapshot {
    pub captured: Option<CapturedTarget>,
    pub foreground_root: Option<usize>,
    pub foreground_pid: Option<u32>,
    pub focus_root: Option<usize>,
    pub overlay_root: Option<usize>,
    pub main_root: Option<usize>,
    pub target_alive: bool,
    pub target_iconic: bool,
    pub integrity_blocked: Option<bool>,
    pub window_class: Option<String>,
}

/// How much of one key chunk the input queue accepted.
#[derive(Debug, Clone, Copy, PartialEq, Eq, Structural)]
pub enum ChunkSend {
    Complete,
    Zero,
    Partial { accepted: u32 },
    Odd { accepted: u32 },
}

/// The delivery policy for a snapshot: copy when there is no live, visible,
/// reachable target; type directly when the target's root is in front;
/// restore focus first when Voxely's own windows or another window of the
/// target's process are in front; copy when the user switched elsewhere.
pub open spec fn insert_policy(snap: WorldSnapshot) -> InsertPolicy {
    match snap.captured {
        None => InsertPolicy::CopyOnly(CopyReason::NoTarget),
        Some(target) => if !snap.target_alive {
            InsertPolicy::CopyOnly(CopyReason::TargetGone)
        } else if snap.target_iconic {
            InsertPolicy::CopyOnly(CopyReason::Minimized)
        } else if snap.integrity_blocked == Some(true) {
            InsertPolicy::CopyOnly(CopyReason::IntegrityBlocked)
        } else {
            match snap.foreground_root {
                Some(fg) => if fg == target.root {
                    InsertPolicy::SendUnicode
                } else if snap.overlay_root == Some(fg) || snap.main_root == Some(fg) {
                    InsertPolicy::RestoreThenSend
                } else if snap.foreground_pid == Some(target.pid) {
                    InsertPolicy::RestoreThenSend
                } else {
                    InsertPolicy::CopyOnly(CopyReason::UserSwitched)
                },
                None => InsertPolicy::CopyOnly(CopyReason::NoTarget),
            }
        },
    }
}

/// Decides how to deliver the text in the situation `snap` describes.
pub fn classify_insert_policy(snap: &WorldSnapshot) -> (r: InsertPolicy)
    ensures
        r == insert_policy(*snap),
{
    let target = match snap.captured {
        Some(t) => t,
        None => {
            return InsertPolicy::CopyOnly(CopyReason::NoTarget);
        },
    };
    if !snap.target_alive {
        return InsertPolicy::CopyOnly(CopyReason::TargetGone);
    }
    if snap.target_iconic {
        return InsertPolicy::CopyOnly(CopyReason::Minimized);
    }
    if snap.integrity_blocked == Some(true) {
        return InsertPolicy::CopyOnly(CopyReason::IntegrityBlocked);
    }
    match snap.foreground_root {
        Some(fg) => {
            if fg == target.root {
                InsertPolicy::SendUnicode
            } else if snap.overlay_root == Some(fg) || snap.main_root == Some(fg) {
                InsertPolicy::RestoreThenSend
            } else if snap.foreground_pid == Some(target.pid) {
                InsertPolicy::RestoreThenSend
            } else {
                InsertPolicy::CopyOnly(CopyReason::UserSwitched)
            }
        },
        None => InsertPolicy::CopyOnly(CopyReason::NoTarget),
    }
}

/// How a chunk of `planned_events` key events went, given how many the
/// queue accepted: nothing planned or everything accepted is complete;
/// nothing accepted is zero; an odd count splits a key's down and up.
pub open spec fn chunk_send(accepted: u32, planned_events: u32) -> ChunkSend {
    if planned_events == 0 {
        ChunkSend::Complete
    } else if accepted == 0 {
        ChunkSend::Zero
    } else if accepted % 2 == 1 {
        ChunkSend::Odd { accepted }
    } else if accepted < planned_events {
        ChunkSend::Partial { accepted }
    } else {
        ChunkSend::Complete
    }
}

/// Classifies the result of sending one chunk.
pub fn classify_chunk_send(accepted: u32, planned_events: u32) -> (r: ChunkSend)
    ensures
        r == chunk_send(accepted, planned_events),
{
    if planned_events == 0 {
        return ChunkSend::Complete;
    }
    if accepted == 0 {
        return ChunkSend::Zero;
    }
    if accepted % 2 == 1 {
        return ChunkSend::Odd { accepted };
    }
    if accepted < planned_events {
        return ChunkSend::Partial { accepted };
    }
    ChunkSend::Complete
}

/// A UTF-16 high surrogate.
pub open spec fn high_surrogate(unit: u16) -> bool {
    0xD800 <= unit <= 0xDBFF
}

/// A UTF-16 low surrogate.
pub open spec fn low_surrogate(unit: u16) -> bool {
    0xDC00 <= unit <= 0xDFFF
}

/// Whether `unit` is a high surrogate.
pub fn is_high_surrogate(unit: u16) -> (r: bool)
    ensures
        r == high_surrogate(unit),
{
    0xD800 <= unit && unit <= 0xDBFF
}

/// Whether `unit` is a low surrogate.
pub fn is_low_surrogate(unit: u16) -> (r: bool)
    ensures
        r == low_surrogate(unit),
{
    0xDC00 <= unit && unit <= 0xDFFF
}

/// Plain edit controls, which want Enter and Tab as virtual keys.
pub open spec fn edit_class(class: Seq<char>) -> bool {
    let t = trim(class);
    eq_ignore_case(t, "edit"@) || starts_with(lower(t), "richedit"@)
}

/// Whether a window class is an edit control (`Edit` or `RichEdit*`, any
/// case).
pub fn edit_class_uses_vk_return(class: &str) -> (r: bool)
    ensures
        r == edit_class(class@),
{
    let c = chars_of(class);
    let t = trim_chars(c.as_slice());
    if chars_eq_ignore_case(t.as_slice(), "edit") {
        return true;
    }
    let l = lower_chars(t.as_slice());
    starts_with_str(l.as_slice(), "richedit")
}

/// The UTF-16 encoding of one character.
pub open spec fn utf16_of(c: char) -> Seq<u16> {
    let v = c as u32;
    if v < 0x10000 {
        seq![v as u16]
    } else {
        seq![(0xD800 + (v - 0x10000) / 1024) as u16, (0xDC00 + (v - 0x10000) % 1024) as u16]
    }
}

/// The UTF-16 encoding of a text (`str::encode_utf16`).
pub open spec fn utf16(s: Seq<char>) -> Seq<u16>
    decreases s.len(),
{
    if s.len() == 0 {
        seq![]
    } else {
        utf16(s.drop_last()) + utf16_of(s.last())
    }
}

/// The UTF-16 units of `text`.
pub fn encode_utf16(text: &str) -> (r: Vec<u16>)
    ensures
        r@ == utf16(text@),
{
    let c = chars_of(text);
    let mut out: Vec<u16> = Vec::new();
    for i in 0..c.len()
        invariant
            out@ == utf16(c@.take(i as int)),
    {
        let ch = c[i];
        let v: u32 = ch as u32;
        proof {
            assert(c@.take(i + 1).drop_last() =~= c@.take(i as int));
            assert(c@.take(i + 1).last() == ch);
        }
        if v < 0x10000 {
            out.push(v as u16);
        } else {
            let w = v - 0x10000;
            out.push((0xD800 + w / 1024) as u16);
            out.push((0xDC00 + w % 1024) as u16);
        }
        assert(out@ =~= utf16(c@.take(i as int)) + utf16_of(ch));
    }
    assert(c@.take(c@.len() as int) =~= c@);
    out
}

/// The key for a single unit: in edit controls Tab, LF and CR become
/// virtual keys.
pub open spec fn single_key(unit: u16, vk: bool) -> InsertKey {
    if vk && unit == 0x09 {
        InsertKey::VirtualKey(0x09)
    } else if vk && (unit == 0x0A || unit == 0x0D) {
        InsertKey::VirtualKey(0x0D)
    } else {
        InsertKey::Unicode(unit)
    }
}

/// The logical units from position `i` on: CR LF is one newline, a
/// surrogate pair is one unit of two keys, every other unit is one key.
pub open spec fn plan_from(u: Seq<u16>, i: int, vk: bool) -> Seq<Seq<InsertKey>>
    decreases u.len() - i,
{
    if i < 0 || i >= u.len() {
        seq![]
    } else if u[i] == 0x0D && i + 1 < u.len() && u[i + 1] == 0x0A {
        seq![seq![if vk { InsertKey::VirtualKey(0x0D) } else { InsertKey::Unicode(0x0A) }]]
            + plan_from(u, i + 2, vk)
    } else if high_surrogate(u[i]) && i + 1 < u.len() && low_surrogate(u[i + 1]) {
        seq![seq![InsertKey::Unicode(u[i]), InsertKey::Unicode(u[i + 1])]] + plan_from(u, i + 2, vk)
    } else {
        seq![seq![single_key(u[i], vk)]] + plan_from(u, i + 1, vk)
    }
}

/// Whether a class (if any) is an edit control.
pub open spec fn class_vk(class: Option<Seq<char>>) -> bool {
    match class {
        Some(c) => edit_class(c),
        None => false,
    }
}

/// The logical units of `text` for a window of class `class`.
pub open spec fn logical_units(text: Seq<char>, class: Option<Seq<char>>) -> Seq<Seq<InsertKey>> {
    plan_from(utf16(text), 0, class_vk(class))
}

/// The views of a list of key vectors.
pub open spec fn unit_views(v: Seq<Vec<InsertKey>>) -> Seq<Seq<InsertKey>> {
    v.map_values(|k: Vec<InsertKey>| k@)
}

/// Splits `text` into the key groups that must be sent together.
pub fn plan_logical_units(text: &str, class: Option<&str>) -> (r: Vec<Vec<InsertKey>>)
    ensures
        unit_views(r@) == logical_units(text@, opt_view(class)),
{
    let vk_return = match class {
        Some(c) => edit_class_uses_vk_return(c),
        None => false,
    };
    let units = encode_utf16(text);
    let ghost u = units@;
    let mut out: Vec<Vec<InsertKey>> = Vec::new();
    let mut i: usize = 0;
    while i < units.len()
        invariant
            u == units@,
            u == utf16(text@),
            vk_return == class_vk(opt_view(class)),
            i <= u.len(),
            plan_from(u, 0, vk_return) == unit_views(out@) + plan_from(u, i as int, vk_return),
        decreases u.len() - i,
    {
        let unit = units[i];
        let ghost before = unit_views(out@);
        if unit == 0x0D && i + 1 < units.len() && units[i + 1] == 0x0A {
            let key = if vk_return {
                InsertKey::VirtualKey(0x0D)
            } else {
                InsertKey::Unicode(0x0A)
            };
            let mut g: Vec<InsertKey> = Vec::new();
            g.push(key);
            out.push(g);
            proof {
                assert(unit_views(out@) =~= before.push(seq![key]));
                assert(plan_from(u, i as int, vk_return) == seq![seq![key]] + plan_from(u, i + 2, vk_return));
                assert(before + plan_from(u, i as int, vk_return) =~= before.push(seq![key]) + plan_from(u, i + 2, vk_return));
            }
            i = i + 2;
        } else if is_high_surrogate(unit) && i + 1 < units.len() && is_low_surrogate(units[i + 1]) {
            let mut g: Vec<InsertKey> = Vec::new();
            g.push(InsertKey::Unicode(unit));
            g.push(InsertKey::Unicode(units[i + 1]));
            let ghost gv = g@;
            out.push(g);
            proof {
                assert(gv =~= seq![InsertKey::Unicode(u[i as int]), InsertKey::Unicode(u[i + 1])]);
                assert(unit_views(out@) =~= before.push(gv));
                assert(plan_from(u, i as int, vk_return) == seq![gv] + plan_from(u, i + 2, vk_return));
                assert(before + plan_from(u, i as int, vk_return) =~= before.push(gv) + plan_from(u, i + 2, vk_return));
            }
            i = i + 2;
        } else {
            let key = if vk_return && unit == 0x09 {
                InsertKey::VirtualKey(0x09)
            } else if vk_return && (unit == 0x0A || unit == 0x0D) {
                InsertKey::VirtualKey(0x0D)
            } else {
                InsertKey::Unicode(unit)
            };
            let mut g: Vec<InsertKey> = Vec::new();
            g.push(key);
            out.push(g);
            proof {
                assert(key == single_key(unit, vk_return));
                assert(unit_views(out@) =~= before.push(seq![key]));
                assert(plan_from(u, i as int, vk_return) == seq![seq![key]] + plan_from(u, i + 1, vk_return));
                assert(before + plan_from(u, i as int, vk_return) =~= before.push(seq![key]) + plan_from(u, i + 1, vk_return));
            }
            i = i + 1;
        }
    }
    proof {
        assert(plan_from(u, i as int, vk_return) =~= Seq::<Seq<InsertKey>>::empty());
        assert(unit_views(out@) + Seq::<Seq<InsertKey>>::empty() =~= unit_views(out@));
    }
    out
}

/// All keys of a list of key groups, in order.
pub open spec fn flat(units: Seq<Seq<InsertKey>>) -> Seq<InsertKey>
    decreases units.len(),
{
    if units.len() == 0 {
        seq![]
    } else {
        flat(units.drop_last()) + units.last()
    }
}

/// Appends all keys of `units[from..to]` to `out`.
fn push_flat(out: &mut Vec<InsertKey>, units: &Vec<Vec<InsertKey>>, from: usize, to: usize)
    requires
        from <= to <= units@.len(),
    ensures
        final(out)@ == old(out)@ + flat(unit_views(units@).subrange(from as int, to as int)),
{
    let ghost start = out@;
    let mut i = from;
    while i < to
        invariant
            from <= i <= to <= units@.len(),
            out@ == start + flat(unit_views(units@).subrange(from as int, i as int)),
        decreases to - i,
    {
        let ghost prev = out@;
        let g = &units[i];
        for k in 0..g.len()
            invariant
                out@ == prev + g@.take(k as int),
        {
            out.push(g[k]);
            assert(g@.take(k + 1) =~= g@.take(k as int).push(g@[k as int]));
        }
        proof {
            assert(g@.take(g@.len() as int) =~= g@);
            let a = unit_views(units@).subrange(from as int, i + 1);
            assert(a.drop_last() =~= unit_views(units@).subrange(from as int, i as int));
            assert(a.last() == g@);
        }
        i = i + 1;
    }
}

/// The keys for `text` as one flat list.
pub fn plan_insert_units(text: &str) -> (r: Vec<InsertKey>)
    ensures
        r@ == flat(logical_units(text@, None)),
{
    plan_insert_units_for_class(text, None)
}

/// The keys for `text`, for a window of class `class`, as one flat list.
pub fn plan_insert_units_for_class(text: &str, class: Option<&str>) -> (r: Vec<InsertKey>)
    ensures
        r@ == flat(logical_units(text@, opt_view(class))),
{
    let units = plan_logical_units(text, class);
    let mut out: Vec<InsertKey> = Vec::new();
    push_flat(&mut out, &units, 0, units.len());
    assert(unit_views(units@).subrange(0, units@.len() as int) =~= unit_views(units@));
    out
}

/// Default keys per chunk.
pub const UNICODE_CHUNK_UNITS_DEFAULT: usize = 512;

/// Smallest adaptive chunk.
pub const UNICODE_CHUNK_UNITS_MIN: usize = 256;

/// Largest chunk.
pub const UNICODE_CHUNK_UNITS_MAX: usize = 1024;

/// Starting chunk for Chromium windows.
pub const UNICODE_CHUNK_UNITS_CHROMIUM: usize = 64;

/// Smallest chunk once a small chunk was in use.
pub const UNICODE_CHUNK_UNITS_CHROMIUM_MIN: usize = 32;

/// Chromium's widget classes.
pub open spec fn chromium_class(class: Seq<char>) -> bool {
    let t = trim(class);
    starts_with(t, "Chrome_WidgetWin"@) || starts_with(t, "Chrome_RenderWidgetHost"@)
        || eq_ignore_case(t, "Chrome_RenderWidgetHostHWND"@)
}

/// Whether a window class belongs to Chromium.
pub fn is_chromium_host(class: &str) -> (r: bool)
    ensures
        r == chromium_class(class@),
{
    let c = chars_of(class);
    let t = trim_chars(c.as_slice());
    starts_with_str(t.as_slice(), "Chrome_WidgetWin") || starts_with_str(
        t.as_slice(),
        "Chrome_RenderWidgetHost",
    ) || chars_eq_ignore_case(t.as_slice(), "Chrome_RenderWidgetHostHWND")
}

/// Chromium windows take the same path as every other window.
pub fn chromium_uses_named_host_adapter() -> (r: bool)
    ensures
        !r,
{
    false
}

/// The starting chunk size: small for Chromium, else the default.
pub fn unicode_chunk_units_for_class(class: Option<&str>) -> (r: usize)
    ensures
        r == match class {
            Some(c) => if chromium_class(c@) {
                UNICODE_CHUNK_UNITS_CHROMIUM
            } else {
                UNICODE_CHUNK_UNITS_DEFAULT
            },
            None => UNICODE_CHUNK_UNITS_DEFAULT,
        },
{
    let chromium = match class {
        Some(c) => is_chromium_host(c),
        None => false,
    };
    if chromium {
        UNICODE_CHUNK_UNITS_CHROMIUM
    } else {
        UNICODE_CHUNK_UNITS_DEFAULT
    }
}

/// The end of the chunk scan from group `end` with `keys` keys taken so far,
/// step by step as the loop below takes it.
spec fn chunk_scan(lens: Seq<int>, end: int, keys: int, max_keys: int) -> int
    decreases lens.len() - end,
{
    if end < 0 || end >= lens.len() {
        end
    } else {
        let n = if lens[end] < 1 {
            1
        } else {
            lens[end]
        };
        if keys > 0 && keys + n > max_keys {
            end
        } else if keys + n >= max_keys {
            end + 1
        } else {
            chunk_scan(lens, end + 1, keys + n, max_keys)
        }
    }
}

/// The key counts of the groups.
pub open spec fn group_lens(units: Seq<Vec<InsertKey>>) -> Seq<int> {
    units.map_values(|g: Vec<InsertKey>| g@.len() as int)
}

/// The chunk budget, clamped to 1 ..= 1024.
pub open spec fn clamp_budget(max_keys: usize) -> int {
    if max_keys < 1 {
        1
    } else if max_keys > UNICODE_CHUNK_UNITS_MAX {
        UNICODE_CHUNK_UNITS_MAX as int
    } else {
        max_keys as int
    }
}

/// The keys group `i` counts for: its length, at least one.
pub open spec fn group_weight(lens: Seq<int>, i: int) -> int {
    if lens[i] < 1 {
        1
    } else {
        lens[i]
    }
}

/// The keys the groups `start .. end` count for.
pub open spec fn keys_in(lens: Seq<int>, start: int, end: int) -> int
    decreases end - start,
{
    if end <= start {
        0
    } else {
        keys_in(lens, start, end - 1) + group_weight(lens, end - 1)
    }
}

/// `end` closes a chunk starting at `start` under a budget of `max_keys`
/// keys: the chunk holds at least one group, fits the budget unless it is
/// that one group, and is maximal: the next group would not fit.
pub open spec fn is_chunk_end(lens: Seq<int>, start: int, end: int, max_keys: int) -> bool {
    &&& start < end <= lens.len()
    &&& (end == start + 1 || keys_in(lens, start, end) <= max_keys)
    &&& (end == lens.len() || keys_in(lens, start, end + 1) > max_keys)
}

/// The end (exclusive) of the next chunk of whole groups starting at
/// `start`: the longest run of groups whose keys fit the clamped budget,
/// at least one group; `start` itself when no group is left.
pub open spec fn chunk_end(units: Seq<Vec<InsertKey>>, start: int, max_keys: usize) -> int {
    if start >= units.len() {
        start
    } else {
        choose|e: int| is_chunk_end(group_lens(units), start, e, clamp_budget(max_keys))
    }
}

proof fn lemma_keys_in_monotone(lens: Seq<int>, start: int, a: int, b: int)
    requires
        start <= a <= b <= lens.len(),
    ensures
        keys_in(lens, start, a) + (b - a) <= keys_in(lens, start, b),
    decreases b - a,
{
    if a < b {
        lemma_keys_in_monotone(lens, start, a, b - 1);
    }
}

/// At most one end closes a chunk.
proof fn lemma_chunk_end_unique(lens: Seq<int>, start: int, e1: int, e2: int, m: int)
    requires
        is_chunk_end(lens, start, e1, m),
        is_chunk_end(lens, start, e2, m),
    ensures
        e1 == e2,
{
    if e1 < e2 {
        lemma_keys_in_monotone(lens, start, e1 + 1, e2);
    } else if e2 < e1 {
        lemma_keys_in_monotone(lens, start, e2 + 1, e1);
    }
}

/// The step-by-step scan ends a chunk.
proof fn lemma_chunk_scan_is_end(lens: Seq<int>, start: int, end: int, keys: int, m: int)
    requires
        0 <= start <= end <= lens.len(),
        start < lens.len(),
        1 <= m,
        keys == keys_in(lens, start, end),
        end == start || keys < m,
    ensures
        ({
            let e = chunk_scan(lens, end, keys, m);
            let e1 = if e > start + 1 { e } else { start + 1 };
            let e2 = if e1 < lens.len() { e1 } else { lens.len() as int };
            is_chunk_end(lens, start, e2, m)
        }),
    decreases lens.len() - end,
{
    lemma_keys_in_monotone(lens, start, start, end);
    if end < lens.len() {
        let n = group_weight(lens, end);
        assert(keys_in(lens, start, end + 1) == keys + n);
        if keys > 0 && keys + n > m {
        } else if keys + n >= m {
            if end + 1 < lens.len() {
                assert(keys_in(lens, start, end + 2) == keys + n + group_weight(lens, end + 1));
            }
        } else {
            lemma_chunk_scan_is_end(lens, start, end + 1, keys + n, m);
        }
    }
}

/// A chunk starting inside the units ends after it starts and within them,
/// and is the one end that closes it.
proof fn lemma_chunk_end_fits(units: Seq<Vec<InsertKey>>, start: int, max_keys: usize)
    requires
        0 <= start < units.len(),
    ensures
        is_chunk_end(group_lens(units), start, chunk_end(units, start, max_keys), clamp_budget(max_keys)),
{
    let lens = group_lens(units);
    let m = clamp_budget(max_keys);
    lemma_chunk_scan_is_end(lens, start, start, 0, m);
}

/// One chunk step: from inside the units it moves forward and stays within
/// them; from the end it stays put.
proof fn lemma_chunk_step(units: Seq<Vec<InsertKey>>, c: int, max_keys: usize)
    requires
        0 <= c <= units.len(),
    ensures
        chunk_end(units, c, max_keys) <= units.len(),
        c < units.len() ==> c < chunk_end(units, c, max_keys),
        c == units.len() ==> chunk_end(units, c, max_keys) == c,
{
    if c < units.len() {
        lemma_chunk_end_fits(units, c, max_keys);
    }
}

/// Where the chunk before chunk `i` ends (the first starts at group 0).
pub open spec fn chunk_start(ends: Seq<int>, i: int) -> int {
    if i == 0 {
        0
    } else {
        ends[i - 1]
    }
}

proof fn lemma_partition_at(units: Seq<Vec<InsertKey>>, max_keys: usize, ends: Seq<int>, i: int)
    requires
        forall|j: int|
            0 <= j < ends.len() ==> #[trigger] ends[j] == chunk_end(units, chunk_start(ends, j), max_keys),
        0 <= i < ends.len(),
    ensures
        ends[i] <= units.len(),
        ends[i] >= if i + 1 < units.len() { i + 1 } else { units.len() as int },
        chunk_start(ends, i) < units.len() ==> chunk_start(ends, i) < ends[i],
    decreases i,
{
    if i > 0 {
        lemma_partition_at(units, max_keys, ends, i - 1);
    }
    assert(ends[i] == chunk_end(units, chunk_start(ends, i), max_keys));
    lemma_chunk_step(units, chunk_start(ends, i), max_keys);
}

/// Chunks taken one after another from the first group cover the groups in
/// order, without gap or overlap: each chunk starts where the previous one
/// ended, ends strictly later while groups remain and never past the last
/// one, so after `k` chunks at least `min(k, len)` groups are taken.
pub proof fn law_chunks_partition(units: Seq<Vec<InsertKey>>, max_keys: usize, ends: Seq<int>)
    requires
        forall|i: int|
            0 <= i < ends.len() ==> #[trigger] ends[i] == chunk_end(units, chunk_start(ends, i), max_keys),
    ensures
        forall|i: int|
            0 <= i < ends.len() ==> #[trigger] ends[i] <= units.len() && ends[i] >= if i + 1
                < units.len() {
                i + 1
            } else {
                units.len() as int
            },
        forall|i: int|
            0 <= i < ends.len() && chunk_start(ends, i) < units.len() ==> chunk_start(ends, i)
                < #[trigger] ends[i],
{
    assert forall|i: int| 0 <= i < ends.len() implies #[trigger] ends[i] <= units.len() && ends[i]
        >= if i + 1 < units.len() {
        i + 1
    } else {
        units.len() as int
    } && (chunk_start(ends, i) < units.len() ==> chunk_start(ends, i) < ends[i]) by {
        lemma_partition_at(units, max_keys, ends, i);
    }
}

proof fn lemma_chunk_scan_bounds(lens: Seq<int>, end: int, keys: int, max_keys: int)
    requires
        0 <= end <= lens.len(),
    ensures
        end <= chunk_scan(lens, end, keys, max_keys) <= lens.len(),
    decreases lens.len() - end,
{
    if end < lens.len() {
        let n = if lens[end] < 1 {
            1
        } else {
            lens[end]
        };
        if !(keys > 0 && keys + n > max_keys) && !(keys + n >= max_keys) {
            lemma_chunk_scan_bounds(lens, end + 1, keys + n, max_keys);
        }
    }
}

/// The end of the chunk that starts at `start` and holds about `max_keys`
/// keys (clamped to 1 ..= 1024), without splitting a group: the longest run
/// of groups that fits, at least one group.
pub fn next_logical_chunk_end(units: &[Vec<InsertKey>], start: usize, max_keys: usize) -> (r: usize)
    ensures
        r == chunk_end(units@, start as int, max_keys),
        start >= units@.len() ==> r == start,
        start < units@.len() ==> is_chunk_end(group_lens(units@), start as int, r as int, clamp_budget(max_keys)),
{
    if start >= units.len() {
        return start;
    }
    let budget: usize = if max_keys < 1 {
        1
    } else if max_keys > UNICODE_CHUNK_UNITS_MAX {
        UNICODE_CHUNK_UNITS_MAX
    } else {
        max_keys
    };
    let ghost lens = group_lens(units@);
    let mut keys: usize = 0;
    let mut end: usize = start;
    let mut done = false;
    while end < units.len() && !done
        invariant
            lens == group_lens(units@),
            start <= end <= units@.len(),
            1 <= budget <= UNICODE_CHUNK_UNITS_MAX,
            !done ==> keys < budget,
            budget == clamp_budget(max_keys),
            !done ==> chunk_scan(lens, start as int, 0, budget as int) == chunk_scan(
                lens,
                end as int,
                keys as int,
                budget as int,
            ),
            done ==> chunk_scan(lens, start as int, 0, budget as int) == end,
        decreases units@.len() - end, if done { 0int } else { 1int },
    {
        let len = units[end].len();
        let n: usize = if len < 1 {
            1
        } else {
            len
        };
        proof {
            assert(lens[end as int] == units@[end as int]@.len());
        }
        if keys > 0 && n > budget - keys {
            done = true;
        } else {
            keys = keys + n;
            end = end + 1;
            if keys >= budget {
                done = true;
            }
        }
    }
    proof {
        lemma_chunk_scan_bounds(lens, start as int, 0, budget as int);
        lemma_chunk_scan_is_end(lens, start as int, start as int, 0, budget as int);
        lemma_chunk_end_fits(units@, start as int, max_keys);
        let e = chunk_scan(lens, start as int, 0, budget as int);
        let e1 = if e > start + 1 { e } else { start + 1 };
        let e2 = if e1 < lens.len() { e1 } else { lens.len() as int };
        lemma_chunk_end_unique(lens, start as int, e2, chunk_end(units@, start as int, max_keys), budget as int);
    }
    let e1 = if end > start + 1 {
        end
    } else {
        start + 1
    };
    if e1 < units.len() {
        e1
    } else {
        units.len()
    }
}

/// The chunk size after a chunk took `wall_ms`: slow chunks drop to the
/// floor, fast ones grow to the maximum, others keep the size clamped to
/// the range; the floor is lower once a small chunk was in use.
pub open spec fn adapted_chunk(prev_chunk: usize, wall_ms: u128) -> usize {
    let min = if prev_chunk < UNICODE_CHUNK_UNITS_MIN {
        UNICODE_CHUNK_UNITS_CHROMIUM_MIN
    } else {
        UNICODE_CHUNK_UNITS_MIN
    };
    if wall_ms >= 80 {
        min
    } else if wall_ms <= 8 {
        UNICODE_CHUNK_UNITS_MAX
    } else if prev_chunk < min {
        min
    } else if prev_chunk > UNICODE_CHUNK_UNITS_MAX {
        UNICODE_CHUNK_UNITS_MAX
    } else {
        prev_chunk
    }
}

/// The next chunk size, from the last one and how long it took.
pub fn adapt_unicode_chunk_size(prev_chunk: usize, wall_ms: u128) -> (r: usize)
    ensures
        r == adapted_chunk(prev_chunk, wall_ms),
        UNICODE_CHUNK_UNITS_CHROMIUM_MIN <= r <= UNICODE_CHUNK_UNITS_MAX,
{
    let min = if prev_chunk < UNICODE_CHUNK_UNITS_MIN {
        UNICODE_CHUNK_UNITS_CHROMIUM_MIN
    } else {
        UNICODE_CHUNK_UNITS_MIN
    };
    let current = if prev_chunk < min {
        min
    } else if prev_chunk > UNICODE_CHUNK_UNITS_MAX {
        UNICODE_CHUNK_UNITS_MAX
    } else {
        prev_chunk
    };
    if wall_ms >= 80 {
        min
    } else if wall_ms <= 8 {
        UNICODE_CHUNK_UNITS_MAX
    } else {
        current
    }
}

/// Whether a window root is one of Voxely's own windows.
pub fn capture_skips_voxely_roots(
    candidate_root: usize,
    overlay_root: Option<usize>,
    main_root: Option<usize>,
) -> (r: bool)
    ensures
        r == (overlay_root == Some(candidate_root) || main_root == Some(candidate_root)),
{
    overlay_root == Some(candidate_root) || main_root == Some(candidate_root)
}

/// The target to type into: the window captured at record start unless it
/// is one of Voxely's windows, else the live focus unless that is one, else
/// none.
pub open spec fn resolved_target(
    start: Option<CapturedTarget>,
    live: Option<CapturedTarget>,
    overlay_root: Option<usize>,
    main_root: Option<usize>,
) -> Option<CapturedTarget> {
    let own = |root: usize| overlay_root == Some(root) || main_root == Some(root);
    match start {
        Some(s) if !own(s.root) => Some(s),
        _ => match live {
            Some(l) if !own(l.root) => Some(l),
            _ => None,
        },
    }
}

/// Chooses between the start-time capture and the live focus; the capture
/// wins whenever it is not one of Voxely's windows.
pub fn resolve_captured_insert_target(
    start: Option<CapturedTarget>,
    live: Option<CapturedTarget>,
    overlay_root: Option<usize>,
    main_root: Option<usize>,
) -> (r: Option<CapturedTarget>)
    ensures
        r == resolved_target(start, live, overlay_root, main_root),
{
    if let Some(s) = start {
        if !capture_skips_voxely_roots(s.root, overlay_root, main_root) {
            return Some(s);
        }
    }
    match live {
        Some(l) => {
            if !capture_skips_voxely_roots(l.root, overlay_root, main_root) {
                Some(l)
            } else {
                None
            }
        },
        None => None,
    }
}

/// A bare handle as a target whose root is itself.
pub open spec fn bare_target(h: NativeHwnd) -> CapturedTarget {
    CapturedTarget { hwnd: h.value, root: h.value, pid: 0, tid: 0, generation: 0 }
}

fn bare(h: Option<NativeHwnd>) -> (r: Option<CapturedTarget>)
    ensures
        r == match h {
            Some(x) => Some(bare_target(x)),
            None => None,
        },
{
    match h {
        Some(x) => Some(CapturedTarget { hwnd: x.value, root: x.value, pid: 0, tid: 0, generation: 0 }),
        None => None,
    }
}

fn root_of(h: Option<NativeHwnd>) -> (r: Option<usize>)
    ensures
        r == match h {
            Some(x) => Some(x.value),
            None => None,
        },
{
    match h {
        Some(x) => Some(x.value),
        None => None,
    }
}

/// The same choice for bare window handles.
pub fn resolve_insert_target(
    start: Option<NativeHwnd>,
    live: Option<NativeHwnd>,
    overlay: Option<NativeHwnd>,
    main: Option<NativeHwnd>,
) -> (r: Option<NativeHwnd>)
    ensures
        r == match resolved_target(
            match start {
                Some(x) => Some(bare_target(x)),
                None => None,
            },
            match live {
                Some(x) => Some(bare_target(x)),
                None => None,
            },
            match overlay {
                Some(x) => Some(x.value),
                None => None,
            },
            match main {
                Some(x) => Some(x.value),
                None => None,
            },
        ) {
            Some(t) => Some(NativeHwnd { value: t.hwnd }),
            None => None,
        },
{
    match resolve_captured_insert_target(bare(start), bare(live), root_of(overlay), root_of(main)) {
        Some(t) => Some(NativeHwnd { value: t.hwnd }),
        None => None,
    }
}

/// Whether an insert started under one generation must stop.
pub fn insert_should_abort(started_generation: u64, current_generation: u64) -> (r: bool)
    ensures
        r == (started_generation != current_generation),
{
    started_generation != current_generation
}

/// Whether waiting for the hotkey's release is over: released, or timed
/// out.
pub fn hotkey_wait_complete(elapsed_ms: u32, still_down: bool, timeout_ms: u32) -> (r: bool)
    ensures
        r == (!still_down || elapsed_ms >= timeout_ms),
{
    !still_down || elapsed_ms >= timeout_ms
}

/// The virtual key a hotkey token names, if any (any case, surrounding
/// whitespace ignored).
pub open spec fn token_key(token: Seq<char>) -> Option<u16> {
    let t = trim(token);
    if eq_ignore_case(t, "Ctrl"@) || eq_ignore_case(t, "Control"@) {
        Some(0x11)
    } else if eq_ignore_case(t, "Shift"@) {
        Some(0x10)
    } else if eq_ignore_case(t, "Alt"@) {
        Some(0x12)
    } else if eq_ignore_case(t, "Win"@) || eq_ignore_case(t, "Meta"@) {
        Some(0x5B)
    } else if eq_ignore_case(t, "Space"@) {
        Some(0x20)
    } else if eq_ignore_case(t, "Left"@) {
        Some(0x25)
    } else if eq_ignore_case(t, "Up"@) {
        Some(0x26)
    } else if eq_ignore_case(t, "Right"@) {
        Some(0x27)
    } else if eq_ignore_case(t, "Down"@) {
        Some(0x28)
    } else {
        None
    }
}

/// The keys named by the `+`-separated tokens, in order, skipping unknown
/// tokens.
pub open spec fn keys_of_tokens(tokens: Seq<Seq<char>>) -> Seq<u16>
    decreases tokens.len(),
{
    if tokens.len() == 0 {
        seq![]
    } else {
        let rest = keys_of_tokens(tokens.drop_last());
        match token_key(tokens.last()) {
            Some(k) => rest.push(k),
            None => rest,
        }
    }
}

fn key_of_token(token: &[char]) -> (r: Option<u16>)
    ensures
        r == token_key(token@),
{
    let t = trim_chars(token);
    let t = t.as_slice();
    if chars_eq_ignore_case(t, "Ctrl") || chars_eq_ignore_case(t, "Control") {
        Some(0x11)
    } else if chars_eq_ignore_case(t, "Shift") {
        Some(0x10)
    } else if chars_eq_ignore_case(t, "Alt") {
        Some(0x12)
    } else if chars_eq_ignore_case(t, "Win") || chars_eq_ignore_case(t, "Meta") {
        Some(0x5B)
    } else if chars_eq_ignore_case(t, "Space") {
        Some(0x20)
    } else if chars_eq_ignore_case(t, "Left") {
        Some(0x25)
    } else if chars_eq_ignore_case(t, "Up") {
        Some(0x26)
    } else if chars_eq_ignore_case(t, "Right") {
        Some(0x27)
    } else if chars_eq_ignore_case(t, "Down") {
        Some(0x28)
    } else {
        None
    }
}

/// The virtual keys of a hotkey such as `Ctrl+Shift+Space`, which must be
/// released before typing starts.
pub fn hotkey_keys_to_release(spec: &str) -> (r: Vec<u16>)
    ensures
        r@ == keys_of_tokens(split_on(spec@, '+')),
{
    let c = chars_of(spec);
    let tokens = split_chars(c.as_slice(), '+');
    let ghost ts = split_on(spec@, '+');
    let mut keys: Vec<u16> = Vec::new();
    for i in 0..tokens.len()
        invariant
            ts == split_on(spec@, '+'),
            tokens@.len() == ts.len(),
            forall|k: int| 0 <= k < tokens@.len() ==> #[trigger] tokens@[k]@ == ts[k],
            keys@ == keys_of_tokens(ts.take(i as int)),
    {
        proof {
            assert(ts.take(i + 1).drop_last() =~= ts.take(i as int));
            assert(ts.take(i + 1).last() == tokens@[i as int]@);
        }
        match key_of_token(tokens[i].as_slice()) {
            Some(k) => {
                keys.push(k);
            },
            None => {},
        }
    }
    assert(ts.take(ts.len() as int) =~= ts);
    keys
}

/// Whether the insertion mode types keys (every mode but `clipboard`).
pub fn insertion_mode_queues_keys(mode: &str) -> (r: bool)
    ensures
        r == (mode@ != "clipboard"@),
{
    !str_eq(mode, "clipboard")
}

/// The UI event an outcome raises, if any.
pub open spec fn outcome_event(outcome: InsertOutcome) -> Option<Seq<char>> {
    match outcome {
        InsertOutcome::Inserted | InsertOutcome::CancelledBeforeDelivery => None,
        InsertOutcome::Copied { .. } => Some("copied"@),
        InsertOutcome::PartialCopied => Some("partial"@),
        InsertOutcome::Failed => Some("TextInsertionFailed"@),
    }
}

/// The UI event for an outcome.
pub fn insert_outcome_event(outcome: InsertOutcome) -> (r: Option<&'static str>)
    ensures
        match r {
            Some(s) => outcome_event(outcome) == Some(s@),
            None => outcome_event(outcome) is None,
        },
{
    match outcome {
        InsertOutcome::Inserted | InsertOutcome::CancelledBeforeDelivery => None,
        InsertOutcome::Copied { .. } => Some("copied"),
        InsertOutcome::PartialCopied => Some("partial"),
        InsertOutcome::Failed => Some("TextInsertionFailed"),
    }
}


// ---------------------------------------------------------------------------
// The insert procedure
// ---------------------------------------------------------------------------
/// The desktop as the insert procedure sees it: a snapshot of the windows,
/// and actions on the focus, the input queue and the clipboard.
pub trait InsertWorld {
    /// Every call made on the world so far, in order, with its answer: the
    /// ghost log the contracts below extend. A verified implementation keeps
    /// it by overriding this; the provided body, empty, is for
    /// implementations outside the proofs (the desktop, a test double),
    /// which cannot hold ghost state: of them the contracts below are
    /// trusted, not proved.
    closed spec fn log(&self) -> Seq<WorldCall> {
        Seq::empty()
    }

    /// The current state of the desktop for a capture.
    fn snapshot(&mut self, captured: Option<CapturedTarget>) -> (r: WorldSnapshot)
        ensures
            final(self).log() == old(self).log().push(WorldCall::Snapshot(r)),
    ;

    /// Brings the target back to the foreground; `true` when it worked.
    fn restore_foreground(&mut self, target: &CapturedTarget) -> (r: bool)
        ensures
            final(self).log() == old(self).log().push(WorldCall::Restore(*target, r)),
    ;

    /// Puts the caret back into the target.
    fn focus_caret(&mut self, target: &CapturedTarget) -> (r: bool)
        ensures
            final(self).log() == old(self).log().push(WorldCall::Focus(*target, r)),
    ;

    /// Waits, up to `timeout_ms`, until `keys` are released.
    fn wait_keys_up(&mut self, keys: &[u16], timeout_ms: u64)
        ensures
            final(self).log() == old(self).log().push(WorldCall::WaitKeys(keys@, timeout_ms)),
    ;

    /// Sends one chunk of keys.
    fn send_keys(&mut self, keys: &[InsertKey]) -> (r: ChunkSend)
        ensures
            final(self).log() == old(self).log().push(WorldCall::Send(keys@, r)),
    ;

    /// Puts `text` on the clipboard.
    fn clipboard_copy(&mut self, text: &str) -> (r: Result<(), AppError>)
        ensures
            final(self).log() == old(self).log().push(WorldCall::Copy(text@, r is Ok)),
    ;
}

/// What to insert, where, and how to tell that the session was cancelled.
pub struct InsertRequest<'a, A: Fn() -> bool> {
    pub mode: &'a str,
    pub text: &'a str,
    pub captured: Option<CapturedTarget>,
    pub overlay_root: Option<usize>,
    pub main_root: Option<usize>,
    pub hotkey: &'a str,
    pub abort: &'a A,
}

/// One call made on the world, with its arguments and the world's answer.
pub enum WorldCall {
    /// A look at the desktop, as the world answered it.
    Snapshot(WorldSnapshot),
    /// Bringing a target back to the front, and whether that worked.
    Restore(CapturedTarget, bool),
    /// Placing the caret in a target, and whether that worked.
    Focus(CapturedTarget, bool),
    /// Waiting, up to a timeout in milliseconds, for keys to be released.
    WaitKeys(Seq<u16>, u64),
    /// A chunk of keys handed to the input queue, and how it was accepted.
    Send(Seq<InsertKey>, ChunkSend),
    /// A clipboard write of a text, and whether it succeeded.
    Copy(Seq<char>, bool),
}

/// A look at the desktop as the insert reads it: the world's answer with
/// the captured target and Voxely's own window roots filled in.
pub open spec fn annotate(
    s: WorldSnapshot,
    captured: Option<CapturedTarget>,
    overlay_root: Option<usize>,
    main_root: Option<usize>,
) -> WorldSnapshot {
    WorldSnapshot { captured, overlay_root, main_root, ..s }
}

/// What an insert did to the world: the texts of the clipboard copies that
/// succeeded, the keys of the chunks the input queue accepted in full, and
/// the calls it made on the world in order, with their answers (the
/// procedures below ensure that the world's log grew by exactly these).
pub struct InsertTrace {
    pub copied: Seq<Seq<char>>,
    pub delivered: Seq<InsertKey>,
    /// Every chunk handed to the input queue, with the snapshot of the
    /// desktop taken just before it was sent.
    pub sends: Seq<(WorldSnapshot, Seq<InsertKey>)>,
    pub calls: Seq<WorldCall>,
}

/// Nothing done.
pub open spec fn no_trace() -> InsertTrace {
    InsertTrace { copied: seq![], delivered: seq![], sends: seq![], calls: seq![] }
}

/// A clipboard write.
pub open spec fn is_copy(c: WorldCall) -> bool {
    c is Copy
}

/// A chunk handed to the input queue.
pub open spec fn is_send(c: WorldCall) -> bool {
    c is Send
}

/// An attempt to bring the target back to the front.
pub open spec fn is_restore(c: WorldCall) -> bool {
    c is Restore
}

/// A clipboard write of exactly `text`.
pub open spec fn copy_of(c: WorldCall, text: Seq<char>) -> bool {
    c matches WorldCall::Copy(t, _) && t == text
}

/// A chunk the input queue accepted in full.
pub open spec fn complete_send(c: WorldCall) -> bool {
    c matches WorldCall::Send(_, a) && a == ChunkSend::Complete
}

/// A chunk the input queue did not accept in full.
pub open spec fn refused_send(c: WorldCall) -> bool {
    c matches WorldCall::Send(_, a) && a != ChunkSend::Complete
}

/// A chunk of which the input queue accepted nothing.
pub open spec fn zero_send(c: WorldCall) -> bool {
    c matches WorldCall::Send(_, a) && a == ChunkSend::Zero
}

/// The clipboard is written at most once, with the whole text, and nothing
/// is done on the world after it.
pub open spec fn copy_once_last(calls: Seq<WorldCall>, text: Seq<char>) -> bool {
    forall|i: int|
        0 <= i < calls.len() && is_copy(#[trigger] calls[i]) ==> i == calls.len() - 1 && copy_of(
            calls[i],
            text,
        )
}

/// The last call was a clipboard write that succeeded (`ok`) or failed.
pub open spec fn ends_with_copy(calls: Seq<WorldCall>, ok: bool) -> bool {
    calls.len() > 0 && (calls.last() matches WorldCall::Copy(_, b) && b == ok)
}

/// Some chunk was accepted in full.
pub open spec fn any_complete(calls: Seq<WorldCall>) -> bool {
    exists|i: int| 0 <= i < calls.len() && complete_send(#[trigger] calls[i])
}

/// A chunk of which the input queue accepted something.
pub open spec fn accepted_send(c: WorldCall) -> bool {
    c matches WorldCall::Send(_, a) && a != ChunkSend::Zero
}

/// Some chunk was accepted, at least in part.
pub open spec fn any_accepted(calls: Seq<WorldCall>) -> bool {
    exists|i: int| 0 <= i < calls.len() && accepted_send(#[trigger] calls[i])
}

/// Some chunk was refused outright.
pub open spec fn any_zero(calls: Seq<WorldCall>) -> bool {
    exists|i: int| 0 <= i < calls.len() && zero_send(#[trigger] calls[i])
}

/// After a chunk is not accepted in full, nothing is sent again: the only
/// call left is the clipboard write.
pub open spec fn stops_after_refusal(calls: Seq<WorldCall>) -> bool {
    forall|i: int|
        0 <= i < calls.len() && refused_send(#[trigger] calls[i]) ==> i + 2 == calls.len()
            && is_copy(calls.last())
}

/// Nothing was sent and nothing written to the clipboard.
pub open spec fn quiet_calls(calls: Seq<WorldCall>) -> bool {
    forall|i: int| 0 <= i < calls.len() ==> !is_copy(#[trigger] calls[i]) && !is_send(calls[i])
}

/// Every look at the desktop, read with the capture and Voxely's windows,
/// called for typing into the target.
pub open spec fn snapshots_all_send(
    calls: Seq<WorldCall>,
    captured: Option<CapturedTarget>,
    overlay_root: Option<usize>,
    main_root: Option<usize>,
) -> bool {
    forall|i: int|
        0 <= i < calls.len() ==> (#[trigger] calls[i] matches WorldCall::Snapshot(s) ==> insert_policy(
            annotate(s, captured, overlay_root, main_root),
        ) == InsertPolicy::SendUnicode)
}

/// Every chunk sent was accepted in full.
pub open spec fn sends_all_complete(calls: Seq<WorldCall>) -> bool {
    forall|i: int| 0 <= i < calls.len() && is_send(#[trigger] calls[i]) ==> complete_send(calls[i])
}

/// The policy of the first look at the desktop, when the first call is one.
pub open spec fn first_policy(
    calls: Seq<WorldCall>,
    captured: Option<CapturedTarget>,
    overlay_root: Option<usize>,
    main_root: Option<usize>,
) -> Option<InsertPolicy> {
    if calls.len() > 0 {
        match calls[0] {
            WorldCall::Snapshot(s) => Some(insert_policy(annotate(s, captured, overlay_root, main_root))),
            _ => None,
        }
    } else {
        None
    }
}

/// Appending a call to a log appends it to each of its tails.
proof fn lemma_tail_push(calls: Seq<WorldCall>, p: int, c: WorldCall)
    requires
        0 <= p <= calls.len(),
    ensures
        calls.push(c).subrange(p, calls.len() as int + 1) == calls.subrange(p, calls.len() as int).push(c),
{
    assert(calls.push(c).subrange(p, calls.len() as int + 1) =~= calls.subrange(p, calls.len() as int).push(c));
}

/// How the outcome follows from what the world answered: a failure is
/// exactly a failed clipboard write; a copy (full or partial) exactly a
/// successful one, partial exactly when some chunk had been accepted at
/// least in part; a
/// cancel sends and copies nothing; an insert copies nothing and had every
/// chunk accepted; a first chunk refused outright means the send was
/// blocked.
pub open spec fn outcome_follows_calls(r: InsertOutcome, calls: Seq<WorldCall>, text: Seq<char>) -> bool {
    &&& copy_once_last(calls, text)
    &&& stops_after_refusal(calls)
    &&& (r == InsertOutcome::Failed <==> ends_with_copy(calls, false))
    &&& ((r is Copied || r == InsertOutcome::PartialCopied) <==> ends_with_copy(calls, true))
    &&& (ends_with_copy(calls, true) ==> (r == InsertOutcome::PartialCopied <==> any_accepted(calls)))
    &&& (r == InsertOutcome::CancelledBeforeDelivery ==> quiet_calls(calls))
    &&& (r == InsertOutcome::Inserted ==> (forall|i: int|
        0 <= i < calls.len() ==> !is_copy(#[trigger] calls[i])) && sends_all_complete(calls))
    &&& (any_zero(calls) && !any_complete(calls) ==> r == (InsertOutcome::Copied {
        reason: CopyReason::SendBlocked,
    }) || r == InsertOutcome::Failed)
}

/// The clipboard copies an outcome stands for: one copy of the full text
/// exactly when the outcome reports a copy.
pub open spec fn clipboard_effect(copied: Seq<Seq<char>>, text: Seq<char>, r: InsertOutcome) -> bool {
    match r {
        InsertOutcome::Copied { .. } | InsertOutcome::PartialCopied => copied == seq![text],
        _ => copied == Seq::<Seq<char>>::empty(),
    }
}

/// The keys an outcome stands for: an insert delivered exactly the text's
/// keys (for some choice of edit-control handling); a cancel before
/// delivery or a full copy delivered nothing.
pub open spec fn delivery_effect(delivered: Seq<InsertKey>, text: Seq<char>, r: InsertOutcome) -> bool {
    match r {
        InsertOutcome::Inserted => exists|vk: bool| delivered == flat(plan_from(utf16(text), 0, vk)),
        InsertOutcome::CancelledBeforeDelivery | InsertOutcome::Copied { .. } => delivered
            == Seq::<InsertKey>::empty(),
        _ => true,
    }
}

fn copy_full<W: InsertWorld>(world: &mut W, text: &str, reason: CopyReason) -> (r: (
    InsertOutcome,
    Ghost<InsertTrace>,
))
    ensures
        r.0 == (InsertOutcome::Copied { reason }) || r.0 == InsertOutcome::Failed,
        clipboard_effect(r.1@.copied, text@, r.0),
        r.1@.delivered == Seq::<InsertKey>::empty(),
        r.1@.sends.len() == 0,
        r.1@.calls == seq![WorldCall::Copy(text@, r.0 != InsertOutcome::Failed)],
        final(world).log() == old(world).log().push(WorldCall::Copy(text@, r.0 != InsertOutcome::Failed)),
{
    match world.clipboard_copy(text) {
        Ok(()) => (
            InsertOutcome::Copied { reason },
            Ghost(
                InsertTrace {
                    copied: seq![text@],
                    delivered: seq![],
                    sends: seq![],
                    calls: seq![WorldCall::Copy(text@, true)],
                },
            ),
        ),
        Err(_) => (
            InsertOutcome::Failed,
            Ghost(
                InsertTrace {
                    copied: seq![],
                    delivered: seq![],
                    sends: seq![],
                    calls: seq![WorldCall::Copy(text@, false)],
                },
            ),
        ),
    }
}

fn copy_and<W: InsertWorld>(world: &mut W, text: &str) -> (r: (InsertOutcome, Ghost<InsertTrace>))
    ensures
        r.0 == InsertOutcome::PartialCopied || r.0 == InsertOutcome::Failed,
        clipboard_effect(r.1@.copied, text@, r.0),
        r.1@.delivered == Seq::<InsertKey>::empty(),
        r.1@.sends.len() == 0,
        r.1@.calls == seq![WorldCall::Copy(text@, r.0 != InsertOutcome::Failed)],
        final(world).log() == old(world).log().push(WorldCall::Copy(text@, r.0 != InsertOutcome::Failed)),
{
    match world.clipboard_copy(text) {
        Ok(()) => (
            InsertOutcome::PartialCopied,
            Ghost(
                InsertTrace {
                    copied: seq![text@],
                    delivered: seq![],
                    sends: seq![],
                    calls: seq![WorldCall::Copy(text@, true)],
                },
            ),
        ),
        Err(_) => (
            InsertOutcome::Failed,
            Ghost(
                InsertTrace {
                    copied: seq![],
                    delivered: seq![],
                    sends: seq![],
                    calls: seq![WorldCall::Copy(text@, false)],
                },
            ),
        ),
    }
}

/// Looks at the desktop and reads the answer with the capture and Voxely's
/// windows; also gives the world's own answer.
fn annotated_snapshot<W: InsertWorld>(
    world: &mut W,
    captured: Option<CapturedTarget>,
    overlay_root: Option<usize>,
    main_root: Option<usize>,
) -> (r: (WorldSnapshot, Ghost<WorldSnapshot>))
    ensures
        r.0 == annotate(r.1@, captured, overlay_root, main_root),
        final(world).log() == old(world).log().push(WorldCall::Snapshot(r.1@)),
{
    let mut snap = world.snapshot(captured);
    let ghost raw = snap;
    snap.overlay_root = overlay_root;
    snap.main_root = main_root;
    snap.captured = captured;
    (snap, Ghost(raw))
}

fn class_of(snap: &WorldSnapshot) -> (r: Option<&str>)
    ensures
        opt_view(r) == match snap.window_class {
            Some(c) => Some(c@),
            None => None,
        },
{
    match &snap.window_class {
        Some(c) => Some(c.as_str()),
        None => None,
    }
}

/// An outcome with its trace, as the insert procedure promises them.
pub open spec fn insert_result_ok(text: Seq<char>, r: InsertOutcome, t: InsertTrace) -> bool {
    clipboard_effect(t.copied, text, r) && delivery_effect(t.delivered, text, r)
}

fn with_delivered(
    r: (InsertOutcome, Ghost<InsertTrace>),
    delivered: Ghost<Seq<InsertKey>>,
    sends: Ghost<Seq<(WorldSnapshot, Seq<InsertKey>)>>,
    calls: Ghost<Seq<WorldCall>>,
) -> (out: (InsertOutcome, Ghost<InsertTrace>))
    ensures
        out.0 == r.0,
        out.1@.copied == r.1@.copied,
        out.1@.delivered == delivered@ + r.1@.delivered,
        out.1@.sends == sends@ + r.1@.sends,
        out.1@.calls == calls@ + r.1@.calls,
{
    (
        r.0,
        Ghost(
            InsertTrace {
                copied: r.1@.copied,
                delivered: delivered@ + r.1@.delivered,
                sends: sends@ + r.1@.sends,
                calls: calls@ + r.1@.calls,
            },
        ),
    )
}

/// Every chunk was sent right after a snapshot in which the policy was to
/// type into the captured target.
pub open spec fn sends_followed_focus(
    sends: Seq<(WorldSnapshot, Seq<InsertKey>)>,
    captured: Option<CapturedTarget>,
) -> bool {
    forall|i: int|
        0 <= i < sends.len() ==> insert_policy(#[trigger] sends[i].0) == InsertPolicy::SendUnicode
            && sends[i].0.captured == captured
}

/// Typing is the policy only when the captured target is alive, not
/// minimized, not blocked by integrity level, and is the foreground window.
pub proof fn law_typing_needs_target_in_front(snap: WorldSnapshot)
    requires
        insert_policy(snap) == InsertPolicy::SendUnicode,
    ensures
        snap.captured matches Some(t) && snap.foreground_root == Some(t.root) && snap.target_alive
            && !snap.target_iconic && snap.integrity_blocked != Some(true),
{
}

fn send_unicode<W: InsertWorld, A: Fn() -> bool>(
    world: &mut W,
    req: &InsertRequest<'_, A>,
    snap: WorldSnapshot,
    pre: Ghost<Seq<WorldCall>>,
) -> (r: (InsertOutcome, Ghost<InsertTrace>))
    requires
        req.abort.requires(()),
        quiet_calls(pre@),
    ensures
        !(r.0 is Copied && r.0->reason == CopyReason::ClipboardMode),
        insert_result_ok(req.text@, r.0, r.1@),
        sends_followed_focus(r.1@.sends, req.captured),
        r.0 == InsertOutcome::CancelledBeforeDelivery ==> req.abort.ensures((), true),
        pre@.len() <= r.1@.calls.len(),
        r.1@.calls.subrange(0, pre@.len() as int) == pre@,
        final(world).log() == old(world).log() + r.1@.calls.subrange(pre@.len() as int, r.1@.calls.len() as int),
        forall|i: int|
            pre@.len() <= i < r.1@.calls.len() ==> !is_restore(#[trigger] r.1@.calls[i]),
        outcome_follows_calls(r.0, r.1@.calls, req.text@),
        (forall|b: bool| #[trigger] req.abort.ensures((), b) ==> !b) && snapshots_all_send(
            r.1@.calls,
            req.captured,
            req.overlay_root,
            req.main_root,
        ) && sends_all_complete(r.1@.calls) ==> r.0 == InsertOutcome::Inserted,
{
    let ghost log0 = world.log();
    let ghost mut calls: Seq<WorldCall> = pre@;
    proof {
        assert(calls.subrange(pre@.len() as int, calls.len() as int) =~= Seq::<WorldCall>::empty());
        assert(world.log() =~= log0 + calls.subrange(pre@.len() as int, calls.len() as int));
    }
    if let Some(target) = snap.captured {
        let focused = world.focus_caret(&target);
        proof {
            lemma_tail_push(calls, pre@.len() as int, WorldCall::Focus(target, focused));
            calls = calls.push(WorldCall::Focus(target, focused));
        }
    }
    let keys_up = hotkey_keys_to_release(req.hotkey);
    world.wait_keys_up(keys_up.as_slice(), 300);
    proof {
        lemma_tail_push(calls, pre@.len() as int, WorldCall::WaitKeys(keys_up@, 300));
        calls = calls.push(WorldCall::WaitKeys(keys_up@, 300));
        assert(calls.subrange(0, pre@.len() as int) =~= pre@);
    }
    if (req.abort)() {
        return (
            InsertOutcome::CancelledBeforeDelivery,
            Ghost(InsertTrace { copied: seq![], delivered: seq![], sends: seq![], calls }),
        );
    }
    let class = class_of(&snap);
    let units = plan_logical_units(req.text, class);
    let ghost vk = class_vk(opt_view(class));
    let ghost all = unit_views(units@);
    proof {
        assert(all == plan_from(utf16(req.text@), 0, vk));
    }
    let mut cursor: usize = 0;
    let mut any = false;
    let mut chunk = unicode_chunk_units_for_class(class);
    let ghost mut delivered: Seq<InsertKey> = Seq::empty();
    let ghost mut sent: Seq<(WorldSnapshot, Seq<InsertKey>)> = Seq::empty();
    proof {
        assert(all.subrange(0, 0) =~= Seq::<Seq<InsertKey>>::empty());
    }
    while cursor < units.len()
        invariant
            req.abort.requires(()),
            all == unit_views(units@),
            all == plan_from(utf16(req.text@), 0, vk),
            cursor <= units@.len(),
            delivered == flat(all.subrange(0, cursor as int)),
            !any ==> cursor == 0,
            sends_followed_focus(sent, req.captured),
            pre@.len() <= calls.len(),
            calls.subrange(0, pre@.len() as int) == pre@,
            log0 == old(world).log(),
            world.log() == log0 + calls.subrange(pre@.len() as int, calls.len() as int),
            forall|i: int| pre@.len() <= i < calls.len() ==> !is_restore(#[trigger] calls[i]),
            forall|i: int| 0 <= i < calls.len() ==> !is_copy(#[trigger] calls[i]),
            sends_all_complete(calls),
            !any ==> forall|i: int| 0 <= i < calls.len() ==> !is_send(#[trigger] calls[i]),
            any ==> any_complete(calls) && any_accepted(calls),
        decreases units@.len() - cursor,
    {
        if (req.abort)() {
            if any {
                let r = with_delivered(copy_and(world, req.text), Ghost(delivered), Ghost(sent), Ghost(calls));
                proof {
                    lemma_copy_appended(calls, req.text@, r.0 != InsertOutcome::Failed);
                    lemma_copy_tail(calls, pre@.len() as int, req.text@, r.0 != InsertOutcome::Failed);
                    assert(r.1@.calls == calls + seq![WorldCall::Copy(req.text@, r.0 != InsertOutcome::Failed)]);
                    assert(world.log() == log0 + r.1@.calls.subrange(pre@.len() as int, r.1@.calls.len() as int));
                }
                return r;
            } else {
                return (
                    InsertOutcome::CancelledBeforeDelivery,
                    Ghost(InsertTrace { copied: seq![], delivered: seq![], sends: seq![], calls }),
                );
            }
        }
        let (live, raw) = annotated_snapshot(world, req.captured, req.overlay_root, req.main_root);
        proof {
            let old_calls = calls;
            lemma_tail_push(calls, pre@.len() as int, WorldCall::Snapshot(raw@));
            calls = calls.push(WorldCall::Snapshot(raw@));
            assert(calls.subrange(0, pre@.len() as int) =~= old_calls.subrange(0, pre@.len() as int));
            assert(calls[calls.len() - 1] == WorldCall::Snapshot(raw@));
            if any {
                let k = choose|k: int| 0 <= k < old_calls.len() && complete_send(#[trigger] old_calls[k]);
                assert(calls[k] == old_calls[k]);
                assert(accepted_send(calls[k]));
            }
        }
        match classify_insert_policy(&live) {
            InsertPolicy::SendUnicode => {},
            _ => {
                if any {
                    let r = with_delivered(copy_and(world, req.text), Ghost(delivered), Ghost(sent), Ghost(calls));
                    proof {
                        lemma_copy_appended(calls, req.text@, r.0 != InsertOutcome::Failed);
                        lemma_copy_tail(calls, pre@.len() as int, req.text@, r.0 != InsertOutcome::Failed);
                    assert(r.1@.calls == calls + seq![WorldCall::Copy(req.text@, r.0 != InsertOutcome::Failed)]);
                    assert(world.log() == log0 + r.1@.calls.subrange(pre@.len() as int, r.1@.calls.len() as int));
                        assert(!snapshots_all_send(r.1@.calls, req.captured, req.overlay_root, req.main_root)) by {
                            assert(r.1@.calls[calls.len() - 1] == calls[calls.len() - 1]);
                        }
                    }
                    return r;
                } else {
                    let r = with_delivered(
                        copy_full(world, req.text, CopyReason::UserSwitched),
                        Ghost(Seq::empty()),
                        Ghost(sent),
                        Ghost(calls),
                    );
                    proof {
                        lemma_copy_appended(calls, req.text@, r.0 != InsertOutcome::Failed);
                        lemma_copy_tail(calls, pre@.len() as int, req.text@, r.0 != InsertOutcome::Failed);
                    assert(r.1@.calls == calls + seq![WorldCall::Copy(req.text@, r.0 != InsertOutcome::Failed)]);
                    assert(world.log() == log0 + r.1@.calls.subrange(pre@.len() as int, r.1@.calls.len() as int));
                        assert(!snapshots_all_send(r.1@.calls, req.captured, req.overlay_root, req.main_root)) by {
                            assert(r.1@.calls[calls.len() - 1] == calls[calls.len() - 1]);
                        }
                    }
                    return r;
                }
            },
        }
        let end = next_logical_chunk_end(units.as_slice(), cursor, chunk);
        let mut keys: Vec<InsertKey> = Vec::new();
        push_flat(&mut keys, &units, cursor, end);
        proof {
            sent = sent.push((live, keys@));
        }
        let started = crate::clock::instant_now();
        let outcome = world.send_keys(keys.as_slice());
        let ghost before_send = calls;
        proof {
            lemma_tail_push(calls, pre@.len() as int, WorldCall::Send(keys@, outcome));
            calls = calls.push(WorldCall::Send(keys@, outcome));
            assert(calls.subrange(0, pre@.len() as int) =~= before_send.subrange(0, pre@.len() as int));
            assert(calls[calls.len() - 1] == WorldCall::Send(keys@, outcome));
        }
        match outcome {
            ChunkSend::Complete => {
                proof {
                    lemma_flat_append(all, cursor as int, end as int);
                    delivered = delivered + keys@;
                    assert(keys@ =~= Seq::<InsertKey>::empty() + flat(all.subrange(cursor as int, end as int)));
                    assert(complete_send(calls[calls.len() - 1]));
                    assert(accepted_send(calls[calls.len() - 1]));
                }
                any = true;
                cursor = end;
                chunk = adapt_unicode_chunk_size(
                    chunk,
                    crate::clock::whole_millis(crate::clock::time_since(&started)),
                );
            },
            ChunkSend::Zero => {
                if !any {
                    proof {
                        assert(!any_accepted(calls)) by {
                            if any_accepted(calls) {
                                let k = choose|k: int| 0 <= k < calls.len() && accepted_send(#[trigger] calls[k]);
                                if k < calls.len() - 1 {
                                    assert(calls[k] == before_send[k]);
                                }
                            }
                        }
                    }
                    let r = with_delivered(
                        copy_full(world, req.text, CopyReason::SendBlocked),
                        Ghost(Seq::empty()),
                        Ghost(sent),
                        Ghost(calls),
                    );
                    proof {
                        lemma_copy_appended(calls, req.text@, r.0 != InsertOutcome::Failed);
                        lemma_copy_tail(calls, pre@.len() as int, req.text@, r.0 != InsertOutcome::Failed);
                    assert(r.1@.calls == calls + seq![WorldCall::Copy(req.text@, r.0 != InsertOutcome::Failed)]);
                    assert(world.log() == log0 + r.1@.calls.subrange(pre@.len() as int, r.1@.calls.len() as int));
                        assert(!sends_all_complete(r.1@.calls)) by {
                            assert(r.1@.calls[calls.len() - 1] == calls[calls.len() - 1]);
                        }
                    }
                    return r;
                }
                proof {
                    let k = choose|k: int| 0 <= k < before_send.len() && complete_send(#[trigger] before_send[k]);
                    assert(calls[k] == before_send[k]);
                    assert(accepted_send(calls[k]));
                }
                let r = with_delivered(copy_and(world, req.text), Ghost(delivered), Ghost(sent), Ghost(calls));
                proof {
                    lemma_copy_appended(calls, req.text@, r.0 != InsertOutcome::Failed);
                    lemma_copy_tail(calls, pre@.len() as int, req.text@, r.0 != InsertOutcome::Failed);
                    assert(r.1@.calls == calls + seq![WorldCall::Copy(req.text@, r.0 != InsertOutcome::Failed)]);
                    assert(world.log() == log0 + r.1@.calls.subrange(pre@.len() as int, r.1@.calls.len() as int));
                    assert(!sends_all_complete(r.1@.calls)) by {
                        assert(r.1@.calls[calls.len() - 1] == calls[calls.len() - 1]);
                    }
                }
                return r;
            },
            _ => {
                proof {
                    assert(accepted_send(calls[calls.len() - 1]));
                }
                let r = with_delivered(copy_and(world, req.text), Ghost(delivered), Ghost(sent), Ghost(calls));
                proof {
                    lemma_copy_appended(calls, req.text@, r.0 != InsertOutcome::Failed);
                    lemma_copy_tail(calls, pre@.len() as int, req.text@, r.0 != InsertOutcome::Failed);
                    assert(r.1@.calls == calls + seq![WorldCall::Copy(req.text@, r.0 != InsertOutcome::Failed)]);
                    assert(world.log() == log0 + r.1@.calls.subrange(pre@.len() as int, r.1@.calls.len() as int));
                    assert(!sends_all_complete(r.1@.calls)) by {
                        assert(r.1@.calls[calls.len() - 1] == calls[calls.len() - 1]);
                    }
                }
                return r;
            },
        }
    }
    proof {
        assert(all.subrange(0, cursor as int) =~= all);
    }
    (InsertOutcome::Inserted, Ghost(InsertTrace { copied: seq![], delivered, sends: sent, calls }))
}

/// Appending a clipboard write to calls: the head is kept and each tail
/// gains the write.
proof fn lemma_copy_tail(calls: Seq<WorldCall>, p: int, text: Seq<char>, ok: bool)
    requires
        0 <= p <= calls.len(),
    ensures
        (calls + seq![WorldCall::Copy(text, ok)]).subrange(0, p) == calls.subrange(0, p),
        (calls + seq![WorldCall::Copy(text, ok)]).subrange(p, calls.len() as int + 1) == calls.subrange(
            p,
            calls.len() as int,
        ).push(WorldCall::Copy(text, ok)),
{
    assert((calls + seq![WorldCall::Copy(text, ok)]).subrange(0, p) =~= calls.subrange(0, p));
    assert((calls + seq![WorldCall::Copy(text, ok)]).subrange(p, calls.len() as int + 1) =~= calls.subrange(
        p,
        calls.len() as int,
    ).push(WorldCall::Copy(text, ok)));
}

/// Appending one clipboard write to calls that wrote nothing yet: the write
/// is the last call, and the log ends with it.
proof fn lemma_copy_appended(calls: Seq<WorldCall>, text: Seq<char>, ok: bool)
    requires
        forall|i: int| 0 <= i < calls.len() ==> !is_copy(#[trigger] calls[i]),
        forall|i: int| 0 <= i < calls.len() - 1 ==> !refused_send(#[trigger] calls[i]),
    ensures
        ({
            let all = calls + seq![WorldCall::Copy(text, ok)];
            &&& stops_after_refusal(all)
            &&& all.len() == calls.len() + 1
            &&& forall|i: int| 0 <= i < calls.len() ==> #[trigger] all[i] == calls[i]
            &&& all.last() == WorldCall::Copy(text, ok)
            &&& copy_once_last(all, text)
            &&& ends_with_copy(all, ok)
            &&& (any_complete(all) <==> any_complete(calls))
            &&& (any_zero(all) <==> any_zero(calls))
            &&& (any_accepted(all) <==> any_accepted(calls))
            &&& all.subrange(0, calls.len() as int) == calls
        }),
{
    let all = calls + seq![WorldCall::Copy(text, ok)];
    assert(all.subrange(0, calls.len() as int) =~= calls);
    assert forall|i: int| 0 <= i < all.len() && refused_send(#[trigger] all[i]) implies i + 2
        == all.len() && is_copy(all.last()) by {
        assert(i < calls.len());
        assert(all[i] == calls[i]);
    }
    assert forall|i: int| 0 <= i < all.len() && is_copy(#[trigger] all[i]) implies i == all.len() - 1
        && copy_of(all[i], text) by {
        if i < calls.len() {
            assert(all[i] == calls[i]);
        }
    }
    if any_complete(all) {
        let k = choose|k: int| 0 <= k < all.len() && complete_send(#[trigger] all[k]);
        assert(k < calls.len());
        assert(complete_send(calls[k]));
    }
    if any_complete(calls) {
        let k = choose|k: int| 0 <= k < calls.len() && complete_send(#[trigger] calls[k]);
        assert(all[k] == calls[k]);
    }
    if any_accepted(all) {
        let k = choose|k: int| 0 <= k < all.len() && accepted_send(#[trigger] all[k]);
        assert(k < calls.len());
        assert(accepted_send(calls[k]));
    }
    if any_accepted(calls) {
        let k = choose|k: int| 0 <= k < calls.len() && accepted_send(#[trigger] calls[k]);
        assert(all[k] == calls[k]);
    }
    if any_zero(all) {
        let k = choose|k: int| 0 <= k < all.len() && zero_send(#[trigger] all[k]);
        assert(k < calls.len());
        assert(zero_send(calls[k]));
    }
    if any_zero(calls) {
        let k = choose|k: int| 0 <= k < calls.len() && zero_send(#[trigger] calls[k]);
        assert(all[k] == calls[k]);
    }
}

proof fn lemma_flat_concat(a: Seq<Seq<InsertKey>>, b: Seq<Seq<InsertKey>>)
    ensures
        flat(a + b) == flat(a) + flat(b),
    decreases b.len(),
{
    if b.len() == 0 {
        assert(a + b =~= a);
        assert(flat(b) =~= Seq::<InsertKey>::empty());
        assert(flat(a) + flat(b) =~= flat(a));
    } else {
        lemma_flat_concat(a, b.drop_last());
        assert((a + b).drop_last() =~= a + b.drop_last());
        assert((a + b).last() == b.last());
        assert(flat(a) + flat(b) =~= flat(a) + flat(b.drop_last()) + b.last());
    }
}

proof fn lemma_flat_append(all: Seq<Seq<InsertKey>>, cursor: int, end: int)
    requires
        0 <= cursor <= end <= all.len(),
    ensures
        flat(all.subrange(0, end)) == flat(all.subrange(0, cursor)) + flat(all.subrange(cursor, end)),
{
    lemma_flat_concat(all.subrange(0, cursor), all.subrange(cursor, end));
    assert(all.subrange(0, cursor) + all.subrange(cursor, end) =~= all.subrange(0, end));
}

fn restore_then_send<W: InsertWorld, A: Fn() -> bool>(
    world: &mut W,
    req: &InsertRequest<'_, A>,
    snap: WorldSnapshot,
    pre: Ghost<Seq<WorldCall>>,
) -> (r: (InsertOutcome, Ghost<InsertTrace>))
    requires
        req.abort.requires(()),
        pre@.len() == 1,
        pre@[0] matches WorldCall::Snapshot(raw) && snap == annotate(raw, req.captured, req.overlay_root, req.main_root),
        insert_policy(snap) == InsertPolicy::RestoreThenSend,
    ensures
        !(r.0 is Copied && r.0->reason == CopyReason::ClipboardMode),
        insert_result_ok(req.text@, r.0, r.1@),
        sends_followed_focus(r.1@.sends, req.captured),
        r.0 == InsertOutcome::CancelledBeforeDelivery ==> req.abort.ensures((), true),
        1 <= r.1@.calls.len(),
        r.1@.calls[0] == pre@[0],
        final(world).log() == old(world).log() + r.1@.calls.subrange(1, r.1@.calls.len() as int),
        outcome_follows_calls(r.0, r.1@.calls, req.text@),
        forall|i: int| 0 <= i < r.1@.calls.len() && is_restore(#[trigger] r.1@.calls[i]) ==> i == 1,
        r.1@.calls.len() > 1 && (r.1@.calls[1] matches WorldCall::Restore(_, false)) ==> r.1@.calls.len() == 3
            && (r.0 == (InsertOutcome::Copied { reason: CopyReason::UserSwitched }) || r.0
            == InsertOutcome::Failed),
{
    let ghost log0 = world.log();
    let target = match snap.captured {
        Some(t) => t,
        None => {
            let r = with_delivered(
                copy_full(world, req.text, CopyReason::NoTarget),
                Ghost(Seq::empty()),
                Ghost(Seq::empty()),
                pre,
            );
            proof {
                lemma_copy_appended(pre@, req.text@, r.0 != InsertOutcome::Failed);
                lemma_copy_tail(pre@, 1, req.text@, r.0 != InsertOutcome::Failed);
                assert(pre@.subrange(1, 1) =~= Seq::<WorldCall>::empty());
            }
            return r;
        },
    };
    let restored = world.restore_foreground(&target);
    let ghost calls = pre@.push(WorldCall::Restore(target, restored));
    proof {
        lemma_tail_push(pre@, 1, WorldCall::Restore(target, restored));
        assert(pre@.subrange(1, 1) =~= Seq::<WorldCall>::empty());
        assert(world.log() =~= log0 + calls.subrange(1, calls.len() as int));
    }
    if !restored {
        let r = with_delivered(
            copy_full(world, req.text, CopyReason::UserSwitched),
            Ghost(Seq::empty()),
            Ghost(Seq::empty()),
            Ghost(calls),
        );
        proof {
            lemma_copy_appended(calls, req.text@, r.0 != InsertOutcome::Failed);
            lemma_copy_tail(calls, 1, req.text@, r.0 != InsertOutcome::Failed);
        }
        return r;
    }
    let focused = world.focus_caret(&target);
    let (snap2, raw2) = annotated_snapshot(world, req.captured, req.overlay_root, req.main_root);
    let ghost calls2 = calls.push(WorldCall::Focus(target, focused)).push(WorldCall::Snapshot(raw2@));
    proof {
        lemma_tail_push(calls, 1, WorldCall::Focus(target, focused));
        lemma_tail_push(calls.push(WorldCall::Focus(target, focused)), 1, WorldCall::Snapshot(raw2@));
        assert(calls2[0] == pre@[0]);
        assert(calls2[1] == WorldCall::Restore(target, true));
        assert(forall|i: int| 0 <= i < calls2.len() ==> !is_copy(#[trigger] calls2[i]) && !is_send(
            calls2[i],
        ) && (is_restore(calls2[i]) ==> i == 1));
    }
    match classify_insert_policy(&snap2) {
        InsertPolicy::SendUnicode => {
            let r = send_unicode(world, req, snap2, Ghost(calls2));
            proof {
                assert(r.1@.calls[0] == calls2[0]);
                assert(r.1@.calls[1] == calls2[1]);
                assert(r.1@.calls.subrange(1, r.1@.calls.len() as int) =~= calls2.subrange(1, calls2.len() as int)
                    + r.1@.calls.subrange(calls2.len() as int, r.1@.calls.len() as int));
                assert forall|i: int|
                    0 <= i < r.1@.calls.len() && is_restore(#[trigger] r.1@.calls[i]) implies i
                    == 1 by {
                    if i < calls2.len() {
                        assert(r.1@.calls[i] == calls2[i]);
                    }
                }
            }
            r
        },
        InsertPolicy::CopyOnly(reason) => {
            let r = with_delivered(
                copy_full(world, req.text, reason),
                Ghost(Seq::empty()),
                Ghost(Seq::empty()),
                Ghost(calls2),
            );
            proof {
                lemma_copy_appended(calls2, req.text@, r.0 != InsertOutcome::Failed);
                lemma_copy_tail(calls2, 1, req.text@, r.0 != InsertOutcome::Failed);
                assert(reason != CopyReason::ClipboardMode);
                assert forall|i: int|
                    0 <= i < r.1@.calls.len() && is_restore(#[trigger] r.1@.calls[i]) implies i
                    == 1 by {
                    if i < calls2.len() {
                        assert(r.1@.calls[i] == calls2[i]);
                    }
                }
            }
            r
        },
        InsertPolicy::RestoreThenSend => {
            let r = with_delivered(
                copy_full(world, req.text, CopyReason::UserSwitched),
                Ghost(Seq::empty()),
                Ghost(Seq::empty()),
                Ghost(calls2),
            );
            proof {
                lemma_copy_appended(calls2, req.text@, r.0 != InsertOutcome::Failed);
                lemma_copy_tail(calls2, 1, req.text@, r.0 != InsertOutcome::Failed);
                assert forall|i: int|
                    0 <= i < r.1@.calls.len() && is_restore(#[trigger] r.1@.calls[i]) implies i
                    == 1 by {
                    if i < calls2.len() {
                        assert(r.1@.calls[i] == calls2[i]);
                    }
                }
            }
            r
        },
    }
}

/// What the insert procedure promises of an outcome and the calls it made on
/// the world (`clipboard`: clipboard mode): the outcome follows from the
/// world's answers (see `outcome_follows_calls`); clipboard mode only
/// writes the clipboard; outside it, the first call is a look at the
/// desktop; when that look calls for copying, the only later call is the
/// clipboard write, and the outcome is that copy (with the look's reason),
/// a failure or a cancel; the target is brought to the front only right
/// after a first look that calls for it, and when that fails the text is
/// copied as the user having switched away.
pub open spec fn insert_accounts(
    text: Seq<char>,
    clipboard: bool,
    captured: Option<CapturedTarget>,
    overlay_root: Option<usize>,
    main_root: Option<usize>,
    r: InsertOutcome,
    t: InsertTrace,
) -> bool {
    let calls = t.calls;
    &&& insert_result_ok(text, r, t)
    &&& outcome_follows_calls(r, calls, text)
    &&& (clipboard ==> forall|i: int| 0 <= i < calls.len() ==> is_copy(#[trigger] calls[i]))
    &&& (clipboard ==> t.delivered == Seq::<InsertKey>::empty() && (r
        == InsertOutcome::CancelledBeforeDelivery || r == (InsertOutcome::Copied {
        reason: CopyReason::ClipboardMode,
    }) || r == InsertOutcome::Failed))
    &&& (!clipboard ==> !(r is Copied && r->reason == CopyReason::ClipboardMode))
    &&& (!clipboard && calls.len() > 0 ==> calls[0] is Snapshot)
    &&& (first_policy(calls, captured, overlay_root, main_root) matches Some(
        InsertPolicy::CopyOnly(reason),
    ) ==> (forall|i: int| 1 <= i < calls.len() ==> is_copy(#[trigger] calls[i])) && (r
        == InsertOutcome::CancelledBeforeDelivery || r == InsertOutcome::Failed || r == (
    InsertOutcome::Copied { reason })))
    &&& (forall|i: int|
        0 <= i < calls.len() && is_restore(#[trigger] calls[i]) ==> i == 1 && first_policy(
            calls,
            captured,
            overlay_root,
            main_root,
        ) == Some(InsertPolicy::RestoreThenSend))
    &&& (calls.len() > 1 && (calls[1] matches WorldCall::Restore(_, false)) ==> calls.len() == 3 && (r
        == (InsertOutcome::Copied { reason: CopyReason::UserSwitched }) || r
        == InsertOutcome::Failed))
}

/// Delivers the transcript, and reports what it did: cancelled before
/// anything happens when the session was aborted; copied in clipboard mode;
/// otherwise typed into the target (restoring its focus first when needed)
/// or copied when that is not possible. The world's log grows by exactly
/// the calls of the trace, and the outcome follows from the world's answers
/// as `insert_accounts` states: a failure is exactly a failed clipboard
/// write, which is the single last call; a copy's reason is the first
/// look's policy when that policy is to copy, the user switching away when
/// the restore fails, and a blocked send when the first chunk is refused
/// outright; the text is inserted whenever the abort check never fires,
/// every look calls for typing and every chunk is accepted. A cancel is
/// reported only after the abort check answered `true`.
pub fn run_insert_traced<W: InsertWorld, A: Fn() -> bool>(
    world: &mut W,
    req: InsertRequest<'_, A>,
) -> (r: (InsertOutcome, Ghost<InsertTrace>))
    requires
        req.abort.requires(()),
    ensures
        final(world).log() == old(world).log() + r.1@.calls,
        insert_accounts(
            req.text@,
            req.mode@ == "clipboard"@,
            req.captured,
            req.overlay_root,
            req.main_root,
            r.0,
            r.1@,
        ),
        sends_followed_focus(r.1@.sends, req.captured),
        r.0 == InsertOutcome::CancelledBeforeDelivery ==> req.abort.ensures((), true),
        (forall|b: bool| #[trigger] req.abort.ensures((), b) ==> b) ==> r.0
            == InsertOutcome::CancelledBeforeDelivery && r.1@.calls.len() == 0,
        (forall|b: bool| #[trigger] req.abort.ensures((), b) ==> !b) && req.mode@ != "clipboard"@
            && req.text@.len() == 0 ==> r.0 == InsertOutcome::Inserted,
        (forall|b: bool| #[trigger] req.abort.ensures((), b) ==> !b) && req.mode@ != "clipboard"@
            && snapshots_all_send(r.1@.calls, req.captured, req.overlay_root, req.main_root)
            && sends_all_complete(r.1@.calls) ==> r.0 == InsertOutcome::Inserted,
{
    let ghost log0 = world.log();
    if (req.abort)() {
        proof {
            assert(world.log() =~= log0 + Seq::<WorldCall>::empty());
        }
        return (InsertOutcome::CancelledBeforeDelivery, Ghost(no_trace()));
    }
    if str_eq(req.mode, "clipboard") {
        let r = copy_full(world, req.text, CopyReason::ClipboardMode);
        proof {
            lemma_copy_appended(Seq::empty(), req.text@, r.0 != InsertOutcome::Failed);
            assert(seq![WorldCall::Copy(req.text@, r.0 != InsertOutcome::Failed)] =~= Seq::<
                WorldCall,
            >::empty() + seq![WorldCall::Copy(req.text@, r.0 != InsertOutcome::Failed)]);
            assert(world.log() =~= log0 + r.1@.calls);
        }
        return r;
    }
    if req.text.unicode_len() == 0 {
        proof {
            assert(req.text@ =~= Seq::<char>::empty());
            assert(utf16(req.text@) =~= Seq::<u16>::empty());
            assert(plan_from(utf16(req.text@), 0, false) =~= Seq::<Seq<InsertKey>>::empty());
            assert(flat(plan_from(utf16(req.text@), 0, false)) =~= Seq::<InsertKey>::empty());
            assert(world.log() =~= log0 + Seq::<WorldCall>::empty());
        }
        return (InsertOutcome::Inserted, Ghost(no_trace()));
    }
    let (snap, raw) = annotated_snapshot(world, req.captured, req.overlay_root, req.main_root);
    let ghost pre = seq![WorldCall::Snapshot(raw@)];
    proof {
        assert(world.log() =~= log0 + pre);
    }
    if (req.abort)() {
        return (
            InsertOutcome::CancelledBeforeDelivery,
            Ghost(InsertTrace { copied: seq![], delivered: seq![], sends: seq![], calls: pre }),
        );
    }
    match classify_insert_policy(&snap) {
        InsertPolicy::CopyOnly(reason) => {
            proof {
                assert(reason != CopyReason::ClipboardMode);
            }
            let r = with_delivered(
                copy_full(world, req.text, reason),
                Ghost(Seq::empty()),
                Ghost(Seq::empty()),
                Ghost(pre),
            );
            proof {
                lemma_copy_appended(pre, req.text@, r.0 != InsertOutcome::Failed);
                assert(r.1@.calls[0] == pre[0]);
                assert(world.log() =~= log0 + r.1@.calls);
            }
            r
        },
        InsertPolicy::RestoreThenSend => {
            let r = restore_then_send(world, &req, snap, Ghost(pre));
            proof {
                assert(r.1@.calls =~= pre + r.1@.calls.subrange(1, r.1@.calls.len() as int));
                assert(!snapshots_all_send(r.1@.calls, req.captured, req.overlay_root, req.main_root)) by {
                    assert(r.1@.calls[0] == WorldCall::Snapshot(raw@));
                }
            }
            r
        },
        InsertPolicy::SendUnicode => {
            let r = send_unicode(world, &req, snap, Ghost(pre));
            proof {
                assert(r.1@.calls[0] == pre[0]);
                assert(r.1@.calls =~= pre + r.1@.calls.subrange(1, r.1@.calls.len() as int));
            }
            r
        },
    }
}

/// Delivers the transcript: the world's log grows by the calls of some
/// trace of which everything `insert_accounts` states holds (so the
/// outcome follows from what the world answered, and a look that calls for
/// copying is followed by nothing but the clipboard write); every chunk was
/// sent right after a look that called for typing into the captured target.
/// It is a cancel only if the abort check can answer `true`, and always one,
/// with no call on the world, when the check can answer nothing else; an
/// empty text outside clipboard mode is inserted when the check never
/// answers `true`.
pub fn run_insert<W: InsertWorld, A: Fn() -> bool>(world: &mut W, req: InsertRequest<'_, A>) -> (r:
    InsertOutcome)
    requires
        req.abort.requires(()),
    ensures
        exists|t: InsertTrace|
            #![trigger t.calls]
            final(world).log() == old(world).log() + t.calls && insert_accounts(
                req.text@,
                req.mode@ == "clipboard"@,
                req.captured,
                req.overlay_root,
                req.main_root,
                r,
                t,
            ) && sends_followed_focus(t.sends, req.captured),
        r == InsertOutcome::CancelledBeforeDelivery ==> req.abort.ensures((), true),
        (forall|b: bool| #[trigger] req.abort.ensures((), b) ==> b) ==> r
            == InsertOutcome::CancelledBeforeDelivery && final(world).log() == old(world).log(),
        (forall|b: bool| #[trigger] req.abort.ensures((), b) ==> !b) && req.mode@ != "clipboard"@
            && req.text@.len() == 0 ==> r == InsertOutcome::Inserted,
{
    let r = run_insert_traced(world, req);
    proof {
        if r.1@.calls.len() == 0 {
            assert(old(world).log() + r.1@.calls =~= old(world).log());
        }
    }
    r.0
}

/// When one of Voxely's own windows (the overlay or the main window) is in
/// front of a live, visible, reachable captured target, the text is typed
/// after bringing the target back, never only copied.
pub proof fn law_own_window_in_front_restores(snap: WorldSnapshot)
    requires
        snap.captured matches Some(t) && snap.foreground_root matches Some(fg) && fg != t.root
            && (snap.overlay_root == Some(fg) || snap.main_root == Some(fg)),
        snap.target_alive,
        !snap.target_iconic,
        snap.integrity_blocked != Some(true),
    ensures
        insert_policy(snap) == InsertPolicy::RestoreThenSend,
{
}

/// Why the text is only copied, case by case: no captured target (or no
/// foreground window) is no target; a closed target is gone; a minimised
/// one is minimised; a target of higher integrity is blocked; a foreground
/// window of another process that is not Voxely's means the user switched
/// away. Typing straight away happens exactly when the target's own root is
/// in front of a live, visible, reachable target; another window of the
/// target's process in front is brought back first.
pub proof fn law_policy_cases(snap: WorldSnapshot)
    ensures
        snap.captured is None ==> insert_policy(snap) == InsertPolicy::CopyOnly(CopyReason::NoTarget),
        snap.captured is Some && !snap.target_alive ==> insert_policy(snap) == InsertPolicy::CopyOnly(
            CopyReason::TargetGone,
        ),
        snap.captured is Some && snap.target_alive && snap.target_iconic ==> insert_policy(snap)
            == InsertPolicy::CopyOnly(CopyReason::Minimized),
        snap.captured is Some && snap.target_alive && !snap.target_iconic && snap.integrity_blocked
            == Some(true) ==> insert_policy(snap) == InsertPolicy::CopyOnly(CopyReason::IntegrityBlocked),
        ({
            let reachable = snap.captured is Some && snap.target_alive && !snap.target_iconic
                && snap.integrity_blocked != Some(true);
            &&& (reachable && snap.foreground_root is None ==> insert_policy(snap)
                == InsertPolicy::CopyOnly(CopyReason::NoTarget))
            &&& (insert_policy(snap) == InsertPolicy::SendUnicode <==> reachable
                && snap.foreground_root == Some(snap.captured->0.root))
            &&& (reachable && (snap.foreground_root matches Some(fg) && fg != snap.captured->0.root
                && snap.overlay_root != Some(fg) && snap.main_root != Some(fg))
                ==> insert_policy(snap) == if snap.foreground_pid == Some(snap.captured->0.pid) {
                InsertPolicy::RestoreThenSend
            } else {
                InsertPolicy::CopyOnly(CopyReason::UserSwitched)
            })
        }),
{
}

} // verus!
