//! The user-editable retry settings, their validation, and the rules that
//! migrate settings saved by older revisions.
use vstd::prelude::*;

use crate::error::AppError;
use crate::transcription::retry::RetryPolicy;
use crate::dsp::pipeline::{has_distinct_kinds, kinds_distinct, PresetGraph};
use crate::text::{chars_are, chars_of, owned, str_eq, trim, trim_of};

verus! {

/// Retry settings as stored, in milliseconds.
#[derive(Debug, Clone, PartialEq)]
pub struct RetrySettings {
    pub automatic_retries: bool,
    pub additional_retries: u32,
    pub connect_timeout_ms: u64,
    pub request_timeout_ms: u64,
    pub initial_retry_delay_ms: u64,
    pub max_retry_delay_ms: u64,
    pub total_operation_timeout_ms: u64,
}

impl Default for RetrySettings {
    fn default() -> (r: Self)
        ensures
            r.automatic_retries,
            r.additional_retries == 3,
            r.connect_timeout_ms == 8_000,
            r.request_timeout_ms == 20_000,
            r.initial_retry_delay_ms == 500,
            r.max_retry_delay_ms == 3_000,
            r.total_operation_timeout_ms == 720_000,
    {
        let p = RetryPolicy::default();
        RetrySettings {
            automatic_retries: p.automatic_retries,
            additional_retries: p.additional_retries,
            connect_timeout_ms: p.connect_timeout_ms,
            request_timeout_ms: p.request_timeout_ms,
            initial_retry_delay_ms: p.initial_retry_delay_ms,
            max_retry_delay_ms: p.max_retry_delay_ms,
            total_operation_timeout_ms: p.total_operation_timeout_ms,
        }
    }
}

/// The first rule a settings value breaks, by its message.
pub open spec fn retry_settings_error(s: RetrySettings) -> Option<Seq<char>> {
    if s.additional_retries > 5 {
        Some("additional retries must be 0-5"@)
    } else if s.connect_timeout_ms < 8_000 {
        Some("connect timeout must be at least 8000ms"@)
    } else if s.request_timeout_ms < 5_000 {
        Some("request timeout must be at least 5000ms"@)
    } else if s.total_operation_timeout_ms < s.request_timeout_ms {
        Some("total timeout must exceed request timeout"@)
    } else if s.total_operation_timeout_ms < 60_000 {
        Some("total timeout must be at least 60s"@)
    } else {
        None
    }
}

fn invalid(msg: &str) -> (r: AppError)
    ensures
        r matches AppError::RequestValidationFailed(m) && m@ == msg@,
{
    AppError::RequestValidationFailed(crate::text::owned(msg))
}

impl RetrySettings {
    /// Checks the settings: at most 5 additional retries, a connect timeout
    /// of at least 8 s, a request timeout of at least 5 s, and a total
    /// timeout of at least 60 s and at least the request timeout.
    pub fn validate(&self) -> (r: Result<(), AppError>)
        ensures
            match r {
                Ok(()) => retry_settings_error(*self) is None,
                Err(e) => retry_settings_error(*self) matches Some(m) && e
                    matches AppError::RequestValidationFailed(msg) && msg@ == m,
            },
    {
        if self.additional_retries > 5 {
            return Err(invalid("additional retries must be 0-5"));
        }
        if self.connect_timeout_ms < 8_000 {
            return Err(invalid("connect timeout must be at least 8000ms"));
        }
        if self.request_timeout_ms < 5_000 {
            return Err(invalid("request timeout must be at least 5000ms"));
        }
        if self.total_operation_timeout_ms < self.request_timeout_ms {
            return Err(invalid("total timeout must exceed request timeout"));
        }
        if self.total_operation_timeout_ms < 60_000 {
            return Err(invalid("total timeout must be at least 60s"));
        }
        Ok(())
    }

    /// The retry policy these settings describe.
    pub fn to_policy(&self) -> (r: RetryPolicy)
        ensures
            r.automatic_retries == self.automatic_retries,
            r.additional_retries == self.additional_retries,
            r.connect_timeout_ms == self.connect_timeout_ms,
            r.request_timeout_ms == self.request_timeout_ms,
            r.initial_retry_delay_ms == self.initial_retry_delay_ms,
            r.max_retry_delay_ms == self.max_retry_delay_ms,
            r.total_operation_timeout_ms == self.total_operation_timeout_ms,
    {
        RetryPolicy {
            automatic_retries: self.automatic_retries,
            additional_retries: self.additional_retries,
            connect_timeout_ms: self.connect_timeout_ms,
            request_timeout_ms: self.request_timeout_ms,
            initial_retry_delay_ms: self.initial_retry_delay_ms,
            max_retry_delay_ms: self.max_retry_delay_ms,
            total_operation_timeout_ms: self.total_operation_timeout_ms,
        }
    }
}

/// Settings that pass validation give a well-formed policy whose attempt
/// budget is between one and six.
pub proof fn law_valid_settings_bound_attempts(s: RetrySettings)
    requires
        retry_settings_error(s) is None,
    ensures
        ({
            let p = RetryPolicy {
                automatic_retries: s.automatic_retries,
                additional_retries: s.additional_retries,
                connect_timeout_ms: s.connect_timeout_ms,
                request_timeout_ms: s.request_timeout_ms,
                initial_retry_delay_ms: s.initial_retry_delay_ms,
                max_retry_delay_ms: s.max_retry_delay_ms,
                total_operation_timeout_ms: s.total_operation_timeout_ms,
            };
            p.wf() && 1 <= p.attempts() <= 6
        }),
{
}

/// The revision that settings written by this version carry.
pub const SETTINGS_REVISION: u32 = 5;

/// The migrations that loading runs on settings saved at some revision.
#[derive(Debug, Clone, Copy, PartialEq, Eq)]
pub struct MigrationSteps {
    /// Copy the file aside before touching it.
    pub backup: bool,
    /// Move the old 30-day retention default to 3 days.
    pub factory_defaults: bool,
    /// Add the fast preset and make it active in place of the quality one.
    pub fast_stt: bool,
    /// Raise timeouts that are too short for long recordings.
    pub long_stt_timeouts: bool,
    /// Replace retired insertion modes by `unicode`.
    pub honest_dsp_and_insert: bool,
    /// Switch an untouched fast preset back to the quality one.
    pub stock_fast_to_quality: bool,
    /// Write the current revision and save.
    pub bump_revision: bool,
}

/// Each migration runs on exactly the revisions older than the one that
/// introduced it.
pub open spec fn steps_for(revision: u32) -> MigrationSteps {
    MigrationSteps {
        backup: revision < 4,
        factory_defaults: revision < 1,
        fast_stt: revision < 2,
        long_stt_timeouts: revision < 3,
        honest_dsp_and_insert: revision < 4,
        stock_fast_to_quality: revision < 5,
        bump_revision: revision < SETTINGS_REVISION,
    }
}

/// The migrations to run on settings saved at `saved_revision`.
pub fn migration_steps(saved_revision: u32) -> (r: MigrationSteps)
    ensures
        r == steps_for(saved_revision),
{
    MigrationSteps {
        backup: saved_revision < 4,
        factory_defaults: saved_revision < 1,
        fast_stt: saved_revision < 2,
        long_stt_timeouts: saved_revision < 3,
        honest_dsp_and_insert: saved_revision < 4,
        stock_fast_to_quality: saved_revision < 5,
        bump_revision: saved_revision < SETTINGS_REVISION,
    }
}

/// Settings from an older revision run every migration that settings from a
/// newer one run, and settings of the current revision run none.
pub proof fn law_older_revisions_migrate_more(older: u32, newer: u32)
    requires
        older <= newer,
    ensures
        steps_for(newer).backup ==> steps_for(older).backup,
        steps_for(newer).factory_defaults ==> steps_for(older).factory_defaults,
        steps_for(newer).fast_stt ==> steps_for(older).fast_stt,
        steps_for(newer).long_stt_timeouts ==> steps_for(older).long_stt_timeouts,
        steps_for(newer).honest_dsp_and_insert ==> steps_for(older).honest_dsp_and_insert,
        steps_for(newer).stock_fast_to_quality ==> steps_for(older).stock_fast_to_quality,
        steps_for(newer).bump_revision ==> steps_for(older).bump_revision,
        newer >= SETTINGS_REVISION ==> steps_for(newer) == (MigrationSteps {
            backup: false,
            factory_defaults: false,
            fast_stt: false,
            long_stt_timeouts: false,
            honest_dsp_and_insert: false,
            stock_fast_to_quality: false,
            bump_revision: false,
        }),
{
}

/// The retention after the factory-default migration.
pub open spec fn migrated_retention(retention: Seq<char>) -> Seq<char> {
    if retention == "30d"@ {
        "3d"@
    } else {
        retention
    }
}

/// Moves the retired 30-day retention default to 3 days.
pub fn migrate_factory_defaults(retention: &mut String)
    ensures
        final(retention)@ == migrated_retention(old(retention)@),
{
    if str_eq(retention.as_str(), "30d") {
        *retention = owned("3d");
    }
}

/// The active preset after the fast-preset migration.
pub open spec fn fast_stt_active(active: Seq<char>) -> Seq<char> {
    if active == "stt-optimized"@ {
        "stt-fast"@
    } else {
        active
    }
}

/// Whether some preset id is `id`.
pub open spec fn has_preset(ids: Seq<String>, id: Seq<char>) -> bool {
    exists|i: int| 0 <= i < ids.len() && #[trigger] ids[i]@ == id
}

/// The fast-preset migration: makes the fast preset active in place of the
/// quality one, and says whether the fast preset must be added in front of
/// the presets (it is missing from `preset_ids`).
pub fn migrate_fast_stt(preset_ids: &[String], active: &mut String) -> (add_fast: bool)
    ensures
        add_fast == !has_preset(preset_ids@, "stt-fast"@),
        final(active)@ == fast_stt_active(old(active)@),
{
    let mut found = false;
    let mut i: usize = 0;
    while i < preset_ids.len()
        invariant
            i <= preset_ids.len(),
            found == exists|j: int| 0 <= j < i && #[trigger] preset_ids@[j]@ == "stt-fast"@,
        decreases preset_ids.len() - i,
    {
        if str_eq(preset_ids[i].as_str(), "stt-fast") {
            found = true;
        }
        i = i + 1;
    }
    if str_eq(active.as_str(), "stt-optimized") {
        *active = owned("stt-fast");
    }
    !found
}

/// Timeouts after the long-recording migration: a request timeout of at
/// least 20 s, a total of 12 min where it was under 3 min, and a connect
/// timeout of at least 8 s.
pub open spec fn long_timeouts(r: RetrySettings) -> RetrySettings {
    RetrySettings {
        request_timeout_ms: if r.request_timeout_ms < 20_000 {
            20_000
        } else {
            r.request_timeout_ms
        },
        total_operation_timeout_ms: if r.total_operation_timeout_ms < 180_000 {
            720_000
        } else {
            r.total_operation_timeout_ms
        },
        connect_timeout_ms: if r.connect_timeout_ms < 8_000 {
            8_000
        } else {
            r.connect_timeout_ms
        },
        ..r
    }
}

/// Raises timeouts that are too short for long recordings.
pub fn migrate_long_stt_timeouts(retry: &mut RetrySettings)
    ensures
        *final(retry) == long_timeouts(*old(retry)),
{
    if retry.request_timeout_ms < 20_000 {
        retry.request_timeout_ms = 20_000;
    }
    if retry.total_operation_timeout_ms < 180_000 {
        retry.total_operation_timeout_ms = 12 * 60 * 1000;
    }
    if retry.connect_timeout_ms < 8_000 {
        retry.connect_timeout_ms = 8_000;
    }
}

/// Lifts a connect timeout under 8 s to 8 s; says whether it changed
/// anything (and so whether the settings must be saved again).
pub fn apply_connect_timeout_floor(retry: &mut RetrySettings) -> (changed: bool)
    ensures
        changed == (old(retry).connect_timeout_ms < 8_000),
        *final(retry) == (RetrySettings {
            connect_timeout_ms: if changed {
                8_000
            } else {
                old(retry).connect_timeout_ms
            },
            ..*old(retry)
        }),
{
    if retry.connect_timeout_ms < 8_000 {
        retry.connect_timeout_ms = 8_000;
        true
    } else {
        false
    }
}

/// Applying a timeout migration a second time changes nothing, and what it
/// leaves passes the connect-timeout rule of validation.
pub proof fn law_timeout_migrations_settle(r: RetrySettings)
    ensures
        long_timeouts(long_timeouts(r)) == long_timeouts(r),
        long_timeouts(r).connect_timeout_ms >= 8_000,
        long_timeouts(r).request_timeout_ms >= 20_000,
        long_timeouts(r).total_operation_timeout_ms >= 180_000,
{
}

/// The insertion mode after the migration that retired `auto` and
/// `sendinput`.
pub open spec fn migrated_insertion_mode(mode: Seq<char>) -> Seq<char> {
    if mode == "auto"@ || mode == "sendinput"@ {
        "unicode"@
    } else {
        mode
    }
}

/// Replaces the retired insertion modes by `unicode`.
pub fn migrate_honest_dsp_and_insert(insertion_mode: &mut String)
    ensures
        final(insertion_mode)@ == migrated_insertion_mode(old(insertion_mode)@),
{
    if str_eq(insertion_mode.as_str(), "auto") || str_eq(insertion_mode.as_str(), "sendinput") {
        *insertion_mode = owned("unicode");
    }
}

/// The active preset after the stock-fast migration, where
/// `stock_fast_present` says whether an unmodified factory fast preset is
/// among the presets.
pub open spec fn stock_fast_active(active: Seq<char>, stock_fast_present: bool) -> Seq<char> {
    if active == "stt-fast"@ && stock_fast_present {
        "stt-optimized"@
    } else {
        active
    }
}

/// Switches an active, unmodified fast preset back to the quality preset.
pub fn migrate_stock_fast_to_quality(active: &mut String, stock_fast_present: bool)
    ensures
        final(active)@ == stock_fast_active(old(active)@, stock_fast_present),
{
    if stock_fast_present && str_eq(active.as_str(), "stt-fast") {
        *active = owned("stt-optimized");
    }
}

/// The storage cap a setting names, in bytes.
pub open spec fn storage_limit_of(setting: Seq<char>) -> Option<u64> {
    if setting == "500mb"@ {
        Some(524_288_000u64)
    } else if setting == "1gb"@ {
        Some(1_073_741_824u64)
    } else if setting == "5gb"@ {
        Some(5_368_709_120u64)
    } else {
        None
    }
}

/// The storage cap of the `storage_limit` setting (`500mb`, `1gb`, `5gb`);
/// `None` for no cap.
pub fn storage_limit_bytes(storage_limit: &str) -> (r: Option<u64>)
    ensures
        r == storage_limit_of(storage_limit@),
{
    let c = chars_of(storage_limit);
    if chars_are(c.as_slice(), "500mb") {
        Some(524_288_000u64)
    } else if chars_are(c.as_slice(), "1gb") {
        Some(1_073_741_824u64)
    } else if chars_are(c.as_slice(), "5gb") {
        Some(5_368_709_120u64)
    } else {
        None
    }
}

/// The position of the first preset whose id is the active one; the caller
/// falls back to the factory quality preset where there is none.
pub fn active_preset_index(preset_ids: &[String], active: &str) -> (r: Option<usize>)
    ensures
        match r {
            Some(i) => i < preset_ids@.len() && preset_ids@[i as int]@ == active@ && forall|j: int|
                0 <= j < i ==> #[trigger] preset_ids@[j]@ != active@,
            None => !has_preset(preset_ids@, active@),
        },
{
    let mut i: usize = 0;
    while i < preset_ids.len()
        invariant
            i <= preset_ids.len(),
            forall|j: int| 0 <= j < i ==> #[trigger] preset_ids@[j]@ != active@,
        decreases preset_ids.len() - i,
    {
        if str_eq(preset_ids[i].as_str(), active) {
            return Some(i);
        }
        i = i + 1;
    }
    None
}

/// Whether some preset has the id `id`.
pub open spec fn graph_has_preset(presets: Seq<PresetGraph>, id: Seq<char>) -> bool {
    exists|i: int| 0 <= i < presets.len() && #[trigger] presets[i].id@ == id
}

/// The first rule of the settings' shape that they break, by its message:
/// a model must be named, the active preset must exist, no preset may use
/// a filter kind twice, and the insertion mode is `unicode` or
/// `clipboard`.
pub open spec fn settings_graph_error(
    model: Seq<char>,
    active_preset_id: Seq<char>,
    presets: Seq<PresetGraph>,
    insertion_mode: Seq<char>,
) -> Option<Seq<char>> {
    if trim(model).len() == 0 {
        Some("model required"@)
    } else if !graph_has_preset(presets, active_preset_id) {
        Some("active preset is missing"@)
    } else if exists|i: int|
        0 <= i < presets.len() && !kinds_distinct(#[trigger] presets[i].order@) {
        Some("preset has duplicate filter kinds"@)
    } else if insertion_mode != "unicode"@ && insertion_mode != "clipboard"@ {
        Some("insertion mode must be unicode or clipboard"@)
    } else {
        None
    }
}

/// Checks the shape of the settings before they are saved (see
/// `settings_graph_error`).
pub fn validate_settings_graph(
    model: &str,
    active_preset_id: &str,
    presets: &[PresetGraph],
    insertion_mode: &str,
) -> (r: Result<(), AppError>)
    ensures
        match r {
            Ok(()) => settings_graph_error(model@, active_preset_id@, presets@, insertion_mode@)
                is None,
            Err(e) => settings_graph_error(model@, active_preset_id@, presets@, insertion_mode@)
                matches Some(m) && e matches AppError::RequestValidationFailed(msg) && msg@ == m,
        },
{
    let t = trim_of(model);
    if t.len() == 0 {
        return Err(invalid("model required"));
    }
    let mut found = false;
    let mut i: usize = 0;
    while i < presets.len()
        invariant
            i <= presets@.len(),
            found == exists|j: int| 0 <= j < i && #[trigger] presets@[j].id@ == active_preset_id@,
        decreases presets@.len() - i,
    {
        if str_eq(presets[i].id.as_str(), active_preset_id) {
            found = true;
        }
        i = i + 1;
    }
    if !found {
        return Err(invalid("active preset is missing"));
    }
    let mut k: usize = 0;
    while k < presets.len()
        invariant
            k <= presets@.len(),
            trim(model@).len() != 0,
            graph_has_preset(presets@, active_preset_id@),
            forall|j: int| 0 <= j < k ==> kinds_distinct(#[trigger] presets@[j].order@),
        decreases presets@.len() - k,
    {
        if !has_distinct_kinds(presets[k].order.as_slice()) {
            assert(!kinds_distinct(presets@[k as int].order@));
            return Err(invalid("preset has duplicate filter kinds"));
        }
        k = k + 1;
    }
    if !str_eq(insertion_mode, "unicode") && !str_eq(insertion_mode, "clipboard") {
        return Err(invalid("insertion mode must be unicode or clipboard"));
    }
    Ok(())
}

/// Whether an incoming settings write is older than the one already saved
/// and must be ignored (a sequence of zero is never stale).
pub fn settings_write_is_stale(incoming_seq: u64, current_seq: u64) -> (r: bool)
    ensures
        r == (incoming_seq != 0 && incoming_seq < current_seq),
{
    incoming_seq != 0 && incoming_seq < current_seq
}

/// The sequence number a saved write gets: one past the current one,
/// saturating.
pub fn next_write_seq(current_seq: u64) -> (r: u64)
    ensures
        r == if current_seq == u64::MAX {
            current_seq as int
        } else {
            current_seq + 1
        },
{
    current_seq.saturating_add(1)
}

/// The fields of a saved settings object that migration reads and writes,
/// each as the file holds it (absent where the file has no such field of
/// the right kind): the revision number, the retention, the active preset,
/// the preset ids, the retry settings and the insertion mode.
#[derive(Debug, Clone, PartialEq)]
pub struct MigratedFields {
    pub config_revision: Option<u64>,
    pub retention: Option<String>,
    pub active_preset_id: Option<String>,
    pub preset_ids: Vec<String>,
    pub retry: Option<RetrySettings>,
    pub insertion_mode: Option<String>,
}

/// What migrating a settings object amounts to: the migrated fields,
/// whether the factory fast preset is to be put in front of the presets,
/// whether the current revision is to be written, and what loading must do
/// with the file.
#[derive(Debug, Clone, PartialEq)]
pub struct SettingsMigration {
    pub fields: MigratedFields,
    pub add_fast_preset: bool,
    pub write_revision: bool,
    pub backup: bool,
    pub save: bool,
}

/// The views of an optional string.
pub open spec fn opt_str_view(s: Option<String>) -> Option<Seq<char>> {
    match s {
        Some(x) => Some(x@),
        None => None,
    }
}

/// The revision a settings file was saved at: its number when it fits a
/// `u32`, else 0.
pub open spec fn saved_revision(config_revision: Option<u64>) -> u32 {
    match config_revision {
        Some(r) => if r <= u32::MAX {
            r as u32
        } else {
            0
        },
        None => 0,
    }
}

/// The active preset after both preset migrations that apply.
pub open spec fn migrated_active(active: Option<Seq<char>>, steps: MigrationSteps, stock_fast_present: bool) -> Option<Seq<char>> {
    let a = if steps.fast_stt {
        Some(fast_stt_active(match active {
            Some(x) => x,
            None => seq![],
        }))
    } else {
        active
    };
    if steps.stock_fast_to_quality {
        match a {
            Some(x) => Some(stock_fast_active(x, stock_fast_present)),
            None => None,
        }
    } else {
        a
    }
}

/// The retry settings after the long-recording migration, where it
/// applies, and the connect-timeout floor.
pub open spec fn migrated_retry(retry: RetrySettings, steps: MigrationSteps) -> RetrySettings {
    let r = if steps.long_stt_timeouts {
        long_timeouts(retry)
    } else {
        retry
    };
    RetrySettings {
        connect_timeout_ms: if r.connect_timeout_ms < 8_000 {
            8_000
        } else {
            r.connect_timeout_ms
        },
        ..r
    }
}

/// Migrates the fields of settings saved at an older revision, in the
/// order the migrations were introduced, then lifts a short connect
/// timeout. A field absent from the file stays absent, except the active
/// preset, which the fast-preset migration always writes. The file is
/// saved when the revision is bumped or the floor changed the timeout.
pub fn migrate_settings_fields(f: MigratedFields, stock_fast_present: bool) -> (r: SettingsMigration)
    ensures
        ({
            let steps = steps_for(saved_revision(f.config_revision));
            &&& r.backup == steps.backup
            &&& r.write_revision == steps.bump_revision
            &&& r.fields.config_revision == if steps.bump_revision {
                Some(SETTINGS_REVISION as u64)
            } else {
                f.config_revision
            }
            &&& opt_str_view(r.fields.retention) == if steps.factory_defaults {
                match f.retention {
                    Some(x) => Some(migrated_retention(x@)),
                    None => None,
                }
            } else {
                opt_str_view(f.retention)
            }
            &&& r.add_fast_preset == (steps.fast_stt && !has_preset(f.preset_ids@, "stt-fast"@))
            &&& opt_str_view(r.fields.active_preset_id) == migrated_active(
                opt_str_view(f.active_preset_id),
                steps,
                stock_fast_present,
            )
            &&& r.fields.preset_ids@ == f.preset_ids@
            &&& r.fields.retry == match f.retry {
                Some(x) => Some(migrated_retry(x, steps)),
                None => None,
            }
            &&& opt_str_view(r.fields.insertion_mode) == if steps.honest_dsp_and_insert {
                match f.insertion_mode {
                    Some(x) => Some(migrated_insertion_mode(x@)),
                    None => None,
                }
            } else {
                opt_str_view(f.insertion_mode)
            }
            &&& r.save == (steps.bump_revision || match f.retry {
                Some(x) => (if steps.long_stt_timeouts {
                    long_timeouts(x)
                } else {
                    x
                }).connect_timeout_ms < 8_000,
                None => false,
            })
        }),
{
    let revision: u32 = match f.config_revision {
        Some(r) => if r <= 0xffff_ffffu64 {
            r as u32
        } else {
            0
        },
        None => 0,
    };
    let steps = migration_steps(revision);
    let retention = match f.retention {
        Some(mut x) => {
            if steps.factory_defaults {
                migrate_factory_defaults(&mut x);
            }
            Some(x)
        },
        None => None,
    };
    let mut add_fast_preset = false;
    let mut active = f.active_preset_id;
    if steps.fast_stt {
        let mut a = match active {
            Some(x) => x,
            None => String::new(),
        };
        add_fast_preset = migrate_fast_stt(f.preset_ids.as_slice(), &mut a);
        active = Some(a);
    }
    let mut retry = f.retry;
    let mut floored = false;
    retry = match retry {
        Some(mut x) => {
            if steps.long_stt_timeouts {
                migrate_long_stt_timeouts(&mut x);
            }
            floored = apply_connect_timeout_floor(&mut x);
            Some(x)
        },
        None => None,
    };
    let insertion_mode = match f.insertion_mode {
        Some(mut x) => {
            if steps.honest_dsp_and_insert {
                migrate_honest_dsp_and_insert(&mut x);
            }
            Some(x)
        },
        None => None,
    };
    active = match active {
        Some(mut x) => {
            if steps.stock_fast_to_quality {
                migrate_stock_fast_to_quality(&mut x, stock_fast_present);
            }
            Some(x)
        },
        None => None,
    };
    let config_revision = if steps.bump_revision {
        Some(SETTINGS_REVISION as u64)
    } else {
        f.config_revision
    };
    SettingsMigration {
        fields: MigratedFields {
            config_revision,
            retention,
            active_preset_id: active,
            preset_ids: f.preset_ids,
            retry,
            insertion_mode,
        },
        add_fast_preset,
        write_revision: steps.bump_revision,
        backup: steps.backup,
        save: steps.bump_revision || floored,
    }
}

} // verus!
