//! Window titles, tray labels, launch arguments and routes of the desktop
//! shell.
use vstd::prelude::*;

use crate::text::{chars_are, chars_of, is_whitespace, is_ws, lower_of, lower, occurs_at,
    occurs_at_exec, starts_with, starts_with_str, str_eq, trim, trim_bounds};

verus! {

/// The project's repository page.
pub const GITHUB_REPO_URL: &'static str = "https://github.com/AryaPaw/voxely";

/// The project's issue tracker.
pub const GITHUB_ISSUES_URL: &'static str = "https://github.com/AryaPaw/voxely/issues";

/// The GitHub page to open: the issue tracker for `issues`, else the
/// repository.
pub fn github_page_url(page: Option<&str>) -> (r: &'static str)
    ensures
        r@ == match page {
            Some(p) => if p@ == "issues"@ {
                GITHUB_ISSUES_URL@
            } else {
                GITHUB_REPO_URL@
            },
            None => GITHUB_REPO_URL@,
        },
{
    match page {
        Some(p) => {
            if str_eq(p, "issues") {
                GITHUB_ISSUES_URL
            } else {
                GITHUB_REPO_URL
            }
        },
        None => GITHUB_REPO_URL,
    }
}

/// The product name shown in every locale.
pub fn app_display_name(_locale: &str) -> (r: &'static str)
    ensures
        r@ == "Voxely"@,
{
    "Voxely"
}

/// The main window's title: plain for a release build; for a local build it
/// says so, in Russian when the locale starts with `ru` (any case).
pub fn window_title(locale: &str, local_build: bool) -> (r: &'static str)
    ensures
        r@ == if !local_build {
            "Voxely"@
        } else if starts_with(lower(locale@), "ru"@) {
            "Voxely (локальная версия)"@
        } else {
            "Voxely (local)"@
        },
{
    if !local_build {
        return "Voxely";
    }
    let l = lower_of(locale);
    if starts_with_str(l.as_slice(), "ru") {
        "Voxely (локальная версия)"
    } else {
        "Voxely (local)"
    }
}

/// The tray menu's (open, quit) labels: English for `en`, else Russian.
pub fn tray_labels(locale: &str) -> (r: (&'static str, &'static str))
    ensures
        r.0@ == if locale@ == "en"@ { "Open"@ } else { "Открыть"@ },
        r.1@ == if locale@ == "en"@ { "Quit"@ } else { "Выход"@ },
{
    if str_eq(locale, "en") {
        ("Open", "Quit")
    } else {
        ("Открыть", "Выход")
    }
}

/// `--autostart` is one whole word of `s` when `s` is split at whitespace.
pub open spec fn autostart_word_at(s: Seq<char>, i: int) -> bool {
    &&& occurs_at(s, "--autostart"@, i)
    &&& (i == 0 || is_ws(s[i - 1]))
    &&& (i + 11 == s.len() || is_ws(s[i + 11]))
}

/// Some argument holds the word `--autostart`.
pub open spec fn hide_on_launch(args: Seq<&str>) -> bool {
    exists|a: int, i: int| 0 <= a < args.len() && #[trigger] autostart_word_at(args[a]@, i)
}

fn has_autostart_word(arg: &str) -> (r: bool)
    ensures
        r == exists|i: int| #[trigger] autostart_word_at(arg@, i),
{
    let s = chars_of(arg);
    let p = chars_of("--autostart");
    proof {
        reveal_strlit("--autostart");
    }
    let n = s.len();
    for i in 0..n
        invariant
            n == s@.len(),
            s@ == arg@,
            p@ == "--autostart"@,
            p@.len() == 11,
            forall|k: int| 0 <= k < i ==> !autostart_word_at(s@, k),
    {
        if occurs_at_exec(s.as_slice(), p.as_slice(), i) {
            let before = i == 0 || is_whitespace(s[i - 1]);
            let after = i + 11 == n || is_whitespace(s[i + 11]);
            if before && after {
                assert(autostart_word_at(s@, i as int));
                return true;
            }
        }
    }
    assert forall|k: int| !autostart_word_at(s@, k) by {
        if 0 <= k < n {
        }
    }
    false
}

/// Whether the process was started by autostart and should stay in the
/// tray: some argument holds the word `--autostart`.
pub fn should_hide_on_launch(args: &[&str]) -> (r: bool)
    ensures
        r == hide_on_launch(args@),
{
    for a in 0..args.len()
        invariant
            forall|b: int, i: int| 0 <= b < a ==> !#[trigger] autostart_word_at(args@[b]@, i),
    {
        if has_autostart_word(args[a]) {
            return true;
        }
    }
    false
}

/// `s` without its leading slashes.
pub open spec fn strip_slashes(s: Seq<char>) -> Seq<char>
    decreases s.len(),
{
    if s.len() > 0 && s[0] == '/' {
        strip_slashes(s.drop_first())
    } else {
        s
    }
}

/// The main-window section a route names: the trimmed route without
/// leading slashes, where an empty route and `history` both mean `history`.
pub open spec fn main_section(route: Seq<char>) -> Seq<char> {
    let t = strip_slashes(trim(route));
    if t.len() == 0 || t == "history"@ {
        "history"@
    } else {
        t
    }
}

proof fn lemma_strip_slashes_skip(s: Seq<char>, i: int)
    requires
        0 <= i <= s.len(),
        forall|j: int| 0 <= j < i ==> s[j] == '/',
    ensures
        strip_slashes(s) == strip_slashes(s.subrange(i, s.len() as int)),
    decreases i,
{
    if i > 0 {
        let t = s.drop_first();
        assert forall|j: int| 0 <= j < i - 1 implies t[j] == '/' by {
            assert(t[j] == s[j + 1]);
        }
        lemma_strip_slashes_skip(t, i - 1);
        assert(t.subrange(i - 1, t.len() as int) =~= s.subrange(i, s.len() as int));
    } else {
        assert(s.subrange(0, s.len() as int) =~= s);
    }
}

/// The section of the main window that `route` names.
pub fn main_section_from_route(route: &str) -> (r: &str)
    ensures
        r@ == main_section(route@),
{
    let s = chars_of(route);
    let (a, b) = trim_bounds(s.as_slice());
    let mut i = a;
    while i < b && s[i] == '/'
        invariant
            a <= i <= b <= s@.len(),
            forall|j: int| a <= j < i ==> s@[j] == '/',
        decreases b - i,
    {
        i = i + 1;
    }
    proof {
        let t = s@.subrange(a as int, b as int);
        assert forall|j: int| 0 <= j < i - a implies t[j] == '/' by {
            assert(t[j] == s@[a + j]);
        }
        lemma_strip_slashes_skip(t, i - a);
        let u = t.subrange(i - a, t.len() as int);
        assert(u =~= s@.subrange(i as int, b as int));
        if u.len() > 0 {
            assert(u[0] == s@[i as int]);
        }
        assert(strip_slashes(u) == u);
    }
    let rest = crate::text::slice_chars(s.as_slice(), i, b);
    if rest.len() == 0 || chars_are(rest.as_slice(), "history") {
        return "history";
    }
    route.substring_char(i, b)
}

/// What the app reports about its own build.
#[derive(Debug, Clone, PartialEq, Eq)]
pub struct RuntimeInfo {
    pub local_build: bool,
    pub build_date: String,
    pub settings_recovered: bool,
}

/// The build facts, for a build of the given kind and date, with settings
/// that loaded as saved.
pub fn runtime_info(local_build: bool, build_date: String) -> (r: RuntimeInfo)
    ensures
        r == (RuntimeInfo { local_build, build_date, settings_recovered: false }),
{
    RuntimeInfo { local_build, build_date, settings_recovered: false }
}

/// The build facts, saying whether the settings file had to be replaced by
/// defaults.
pub fn runtime_info_with_recovery(local_build: bool, build_date: String, recovered: bool) -> (r:
    RuntimeInfo)
    ensures
        r == (RuntimeInfo { local_build, build_date, settings_recovered: recovered }),
{
    RuntimeInfo { settings_recovered: recovered, ..runtime_info(local_build, build_date) }
}

/// Names a data directory may have when a debug build is pointed at one of
/// its own: `VoxelyPerf` or `VoxelyPerf-` followed by anything.
pub open spec fn perf_data_dir_name(name: Seq<char>) -> bool {
    name == "VoxelyPerf"@ || starts_with(name, "VoxelyPerf-"@)
}

/// Whether a debug data-directory override may use a directory of this
/// name.
pub fn is_perf_data_dir_name(name: &str) -> (r: bool)
    ensures
        r == perf_data_dir_name(name@),
{
    let c = chars_of(name);
    chars_are(c.as_slice(), "VoxelyPerf") || starts_with_str(c.as_slice(), "VoxelyPerf-")
}

/// Whether a debug build honours a data-directory override, given the parts
/// of the path that decide it: the path must be absolute, its last
/// component a benchmark folder name, and its parent the roaming folder
/// itself (so the override can neither climb out nor nest deeper).
pub fn data_dir_override_allowed(absolute: bool, name: Option<&str>, parent_is_roaming: bool) -> (r:
    bool)
    ensures
        r == (absolute && (name matches Some(n) && perf_data_dir_name(n@)) && parent_is_roaming),
{
    if !absolute {
        return false;
    }
    let ok = match name {
        Some(n) => is_perf_data_dir_name(n),
        None => false,
    };
    ok && parent_is_roaming
}

/// The data folder's name under the roaming application-data folder.
pub const DATA_DIR_NAME: &'static str = "Voxely";

/// The name the data folder had in earlier versions.
pub const LEGACY_DATA_DIR_NAME: &'static str = "com.voxely.desktop";

/// Whether the legacy data folder is to be moved to the current name:
/// only when it exists and the current one does not. When the move fails
/// the legacy folder stays in use; otherwise the current name is used.
pub fn legacy_data_dir_move_needed(current_exists: bool, legacy_exists: bool) -> (r: bool)
    ensures
        r == (!current_exists && legacy_exists),
{
    !current_exists && legacy_exists
}

} // verus!
