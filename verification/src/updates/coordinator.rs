//! Plans, outcome messages and pacing of the silent installer updates.
use vstd::prelude::*;

verus! {

/// The outcome of one silent update pass.
#[derive(Debug, Clone, Copy, PartialEq, Eq)]
pub enum SilentUpdateOutcome {
    Skipped,
    Busy,
    Offline,
    NoUpdate,
    Applied,
    Failed,
}

/// The message shown after a manual update check: English for `en`, else
/// Russian.
pub open spec fn manual_copy_text(outcome: SilentUpdateOutcome, en: bool) -> Seq<char> {
    if en {
        match outcome {
            SilentUpdateOutcome::NoUpdate => "You already have the latest version."@,
            SilentUpdateOutcome::Applied => "Update downloaded. It will install now."@,
            SilentUpdateOutcome::Failed => "Could not check or download the update."@,
            SilentUpdateOutcome::Offline => "No network."@,
            SilentUpdateOutcome::Skipped => "Updates work only for an installed copy."@,
            SilentUpdateOutcome::Busy => "Cannot update right now. Try again in a minute."@,
        }
    } else {
        match outcome {
            SilentUpdateOutcome::NoUpdate => "Уже установлена последняя версия."@,
            SilentUpdateOutcome::Applied => "Обновление скачано, сейчас установится."@,
            SilentUpdateOutcome::Failed => "Не удалось проверить или скачать."@,
            SilentUpdateOutcome::Offline => "Нет сети."@,
            SilentUpdateOutcome::Skipped => "Обновления доступны только установленной копии."@,
            SilentUpdateOutcome::Busy => "Сейчас нельзя обновить. Попробуйте через минуту."@,
        }
    }
}

/// The message for a manual update check in UI language `ui`.
pub fn manual_copy(outcome: SilentUpdateOutcome, ui: &str) -> (r: String)
    ensures
        r@ == manual_copy_text(outcome, ui@ == "en"@),
{
    let s: &str = if crate::text::str_eq(ui, "en") {
        match outcome {
            SilentUpdateOutcome::NoUpdate => "You already have the latest version.",
            SilentUpdateOutcome::Applied => "Update downloaded. It will install now.",
            SilentUpdateOutcome::Failed => "Could not check or download the update.",
            SilentUpdateOutcome::Offline => "No network.",
            SilentUpdateOutcome::Skipped => "Updates work only for an installed copy.",
            SilentUpdateOutcome::Busy => "Cannot update right now. Try again in a minute.",
        }
    } else {
        match outcome {
            SilentUpdateOutcome::NoUpdate => "Уже установлена последняя версия.",
            SilentUpdateOutcome::Applied => "Обновление скачано, сейчас установится.",
            SilentUpdateOutcome::Failed => "Не удалось проверить или скачать.",
            SilentUpdateOutcome::Offline => "Нет сети.",
            SilentUpdateOutcome::Skipped => "Обновления доступны только установленной копии.",
            SilentUpdateOutcome::Busy => "Сейчас нельзя обновить. Попробуйте через минуту.",
        }
    };
    crate::text::owned(s)
}

/// Seconds before the next pass: two minutes after a failure, a busy app or
/// no network, else fifteen seconds.
pub fn delay_after(outcome: SilentUpdateOutcome) -> (r: u64)
    ensures
        r == match outcome {
            SilentUpdateOutcome::Failed | SilentUpdateOutcome::Busy | SilentUpdateOutcome::Offline => 120u64,
            _ => 15u64,
        },
{
    match outcome {
        SilentUpdateOutcome::Failed | SilentUpdateOutcome::Busy | SilentUpdateOutcome::Offline => 120,
        _ => 15,
    }
}

/// A release as the release feed describes it.
#[derive(Debug, Clone)]
pub struct GitHubRelease {
    pub tag_name: String,
    pub prerelease: bool,
    pub assets: Vec<GitHubAsset>,
}

/// One downloadable file of a release.
#[derive(Debug, Clone)]
pub struct GitHubAsset {
    pub name: String,
    pub browser_download_url: String,
    pub digest: Option<String>,
}

/// What asking the feed for the latest release gave: that there is none,
/// the release, or neither (the request failed).
#[derive(Debug, Clone)]
pub struct ReleaseQuery {
    pub not_found: bool,
    pub snapshot: Option<GitHubRelease>,
}

/// What a silent update pass is to do.
#[derive(Debug, Clone, PartialEq, Eq)]
pub enum UpdatePlan {
    Skip,
    Offline,
    NoUpdate,
    Failed,
    Download { url: String, file_name: String, expected_sha256: String },
}

/// The outcome of a pass that ends with its plan; a plan to download that
/// is never carried out counts as a failure.
pub fn plan_to_outcome(plan: &UpdatePlan) -> (r: SilentUpdateOutcome)
    ensures
        r == match plan {
            UpdatePlan::Skip => SilentUpdateOutcome::Skipped,
            UpdatePlan::Offline => SilentUpdateOutcome::Offline,
            UpdatePlan::NoUpdate => SilentUpdateOutcome::NoUpdate,
            UpdatePlan::Failed => SilentUpdateOutcome::Failed,
            UpdatePlan::Download { .. } => SilentUpdateOutcome::Failed,
        },
{
    match plan {
        UpdatePlan::Skip => SilentUpdateOutcome::Skipped,
        UpdatePlan::Offline => SilentUpdateOutcome::Offline,
        UpdatePlan::NoUpdate => SilentUpdateOutcome::NoUpdate,
        UpdatePlan::Failed => SilentUpdateOutcome::Failed,
        UpdatePlan::Download { .. } => SilentUpdateOutcome::Failed,
    }
}

} // verus!
