//! Importing microphone filter chains from an OBS scene collection: which
//! sources are audio inputs, which OBS filters map onto Voxely's, and what
//! cannot be imported.
use vstd::prelude::*;

use crate::dsp::pipeline::{FilterKind, FilterSlot};
use crate::text::{chars_are, chars_of, concat_str, contains, contains_str, owned, string_from_chars};

verus! {

/// The views of an optional string.
pub open spec fn opt_text(s: Option<String>) -> Option<Seq<char>> {
    match s {
        Some(x) => Some(x@),
        None => None,
    }
}

/// What the importer reads of one OBS filter (`settings` is the filter's
/// settings object written back as JSON, `method` its `settings.method`).
#[derive(Debug, Clone, PartialEq)]
pub struct ObsFilterFields {
    pub name: Option<String>,
    pub id: Option<String>,
    pub enabled: Option<bool>,
    pub method: Option<String>,
    pub settings: Option<String>,
}

/// What the importer reads of one OBS source (`device_id` is its
/// `settings.device_id`).
#[derive(Debug, Clone, PartialEq)]
pub struct ObsSourceFields {
    pub id: Option<String>,
    pub name: Option<String>,
    pub device_id: Option<String>,
    pub filters: Option<Vec<ObsFilterFields>>,
}

/// What the importer reads of a scene collection: its `sources` and
/// `aux-audio` lists.
#[derive(Debug, Clone, PartialEq)]
pub struct ObsSceneFields {
    pub sources: Option<Vec<ObsSourceFields>>,
    pub aux_audio: Option<Vec<ObsSourceFields>>,
}

/// A filter's fields as text.
pub struct ObsFilterSpec {
    pub name: Option<Seq<char>>,
    pub id: Option<Seq<char>>,
    pub enabled: Option<bool>,
    pub method: Option<Seq<char>>,
    pub settings: Option<Seq<char>>,
}

/// A source's fields as text.
pub struct ObsSourceSpec {
    pub id: Option<Seq<char>>,
    pub name: Option<Seq<char>>,
    pub device_id: Option<Seq<char>>,
    pub filters: Option<Seq<ObsFilterSpec>>,
}

/// A scene collection's fields as text.
pub struct ObsSceneSpec {
    pub sources: Option<Seq<ObsSourceSpec>>,
    pub aux_audio: Option<Seq<ObsSourceSpec>>,
}

impl View for ObsFilterFields {
    type V = ObsFilterSpec;

    open spec fn view(&self) -> ObsFilterSpec {
        ObsFilterSpec {
            name: opt_text(self.name),
            id: opt_text(self.id),
            enabled: self.enabled,
            method: opt_text(self.method),
            settings: opt_text(self.settings),
        }
    }
}

impl View for ObsSourceFields {
    type V = ObsSourceSpec;

    open spec fn view(&self) -> ObsSourceSpec {
        ObsSourceSpec {
            id: opt_text(self.id),
            name: opt_text(self.name),
            device_id: opt_text(self.device_id),
            filters: match self.filters {
                Some(v) => Some(v@.map_values(|f: ObsFilterFields| f@)),
                None => None,
            },
        }
    }
}

/// The views of a list of sources.
pub open spec fn source_views(v: Seq<ObsSourceFields>) -> Seq<ObsSourceSpec> {
    v.map_values(|s: ObsSourceFields| s@)
}

impl View for ObsSceneFields {
    type V = ObsSceneSpec;

    open spec fn view(&self) -> ObsSceneSpec {
        ObsSceneSpec {
            sources: match self.sources {
                Some(v) => Some(source_views(v@)),
                None => None,
            },
            aux_audio: match self.aux_audio {
                Some(v) => Some(source_views(v@)),
                None => None,
            },
        }
    }
}

/// What `serde_json::from_str` makes of a scene collection: its error
/// message when the text is not JSON; else the fields the importer reads.
pub uninterp spec fn scene_fields(json: Seq<char>) -> Result<ObsSceneSpec, Seq<char>>;

/// A JSON value as serde_json holds it.
#[verifier::external_type_specification]
#[verifier::external_body]
pub struct ExJsonValue(serde_json::Value);

/// A string member of a JSON value, if it has one of that name.
#[verifier::external_body]
fn json_text(v: &serde_json::Value, key: &str) -> Option<String> {
    v.get(key).and_then(serde_json::Value::as_str).map(str::to_string)
}

/// The members of an OBS filter the importer reads (part of
/// `read_scene_collection`).
#[verifier::external_body]
fn filter_fields(f: &serde_json::Value) -> ObsFilterFields {
    let settings = f.get("settings");
    ObsFilterFields {
        name: json_text(f, "name"),
        id: json_text(f, "id"),
        enabled: f.get("enabled").and_then(serde_json::Value::as_bool),
        method: settings.and_then(|s| json_text(s, "method")),
        settings: settings.map(serde_json::Value::to_string),
    }
}

/// The members of an OBS source the importer reads (part of
/// `read_scene_collection`).
#[verifier::external_body]
fn source_fields(s: &serde_json::Value) -> ObsSourceFields {
    let filters = s.get("filters").and_then(serde_json::Value::as_array);
    ObsSourceFields {
        id: json_text(s, "id"),
        name: json_text(s, "name"),
        device_id: s.get("settings").and_then(|x| json_text(x, "device_id")),
        filters: filters.map(|a| a.iter().map(filter_fields).collect()),
    }
}

/// Reads a scene collection with `serde_json::from_str` and picks the
/// members the importer uses (strings with `as_str`, switches with
/// `as_bool`, lists with `as_array`, a filter's settings written back with
/// serde_json's `Display`). The contract only names the result: it is
/// whatever serde_json makes of the text.
#[verifier::external_body]
fn read_scene_collection(json: &str) -> (r: Result<ObsSceneFields, String>)
    ensures
        match r {
            Ok(f) => scene_fields(json@) == Ok::<ObsSceneSpec, Seq<char>>(f@),
            Err(m) => scene_fields(json@) == Err::<ObsSceneSpec, Seq<char>>(m@),
        },
{
    let root: serde_json::Value = serde_json::from_str(json).map_err(|e| e.to_string())?;
    let list = |k: &str| root.get(k).and_then(serde_json::Value::as_array);
    Ok(ObsSceneFields {
        sources: list("sources").map(|a| a.iter().map(source_fields).collect()),
        aux_audio: list("aux-audio").map(|a| a.iter().map(source_fields).collect()),
    })
}

/// One imported filter: its name, OBS type, switch, settings (JSON), the
/// Voxely filter it maps onto, and why it cannot be imported exactly.
#[derive(Debug, Clone, PartialEq)]
pub struct ObsFilterView {
    pub name: String,
    pub filter_type: String,
    pub enabled: bool,
    pub settings: String,
    pub mapped_kind: Option<FilterKind>,
    pub unsupported_reason: Option<String>,
}

/// One importable microphone source.
#[derive(Debug, Clone, PartialEq)]
pub struct ObsImportPreview {
    pub source_name: String,
    pub device_id: Option<String>,
    pub filters: Vec<ObsFilterView>,
    pub unsupported: Vec<String>,
}

/// `s`, or `d` when absent.
pub open spec fn or_default(s: Option<Seq<char>>, d: Seq<char>) -> Seq<char> {
    match s {
        Some(x) => x,
        None => d,
    }
}

/// OBS's noise suppression filters.
pub open spec fn noise_filter(t: Seq<char>) -> bool {
    t == "noise_suppress_filter"@ || t == "noise_suppress_filter_v2"@
}

/// The Voxely filter an OBS filter type maps onto.
pub open spec fn filter_kind_of(t: Seq<char>) -> Option<FilterKind> {
    if noise_filter(t) {
        Some(FilterKind::Rnnoise)
    } else if t == "gain_filter"@ {
        Some(FilterKind::Gain)
    } else if t == "compressor_filter"@ {
        Some(FilterKind::Compressor)
    } else if t == "expander_filter"@ {
        Some(FilterKind::Expander)
    } else if t == "noise_gate_filter"@ {
        Some(FilterKind::Gate)
    } else if t == "limiter_filter"@ {
        Some(FilterKind::Limiter)
    } else {
        None
    }
}

/// Why an OBS filter cannot be imported exactly: noise suppression by a
/// method other than RNNoise (the default) is mapped approximately; a type
/// with no Voxely counterpart is unsupported.
pub open spec fn filter_reason(t: Seq<char>, method: Option<Seq<char>>) -> Option<Seq<char>> {
    if noise_filter(t) {
        let m = or_default(method, "rnnoise"@);
        if m == "rnnoise"@ {
            None
        } else {
            Some("OBS method '"@ + m + "' is not RNNoise; mapped approximately"@)
        }
    } else if filter_kind_of(t) is Some {
        None
    } else {
        Some("Unsupported: "@ + t)
    }
}

/// `v` imports the OBS filter `f`: names default to `Unnamed`, types to
/// `unknown`, the switch to on and the settings to `{}`.
pub open spec fn maps_filter(v: ObsFilterView, f: ObsFilterSpec) -> bool {
    let t = or_default(f.id, "unknown"@);
    &&& v.name@ == or_default(f.name, "Unnamed"@)
    &&& v.filter_type@ == t
    &&& v.enabled == match f.enabled {
        Some(b) => b,
        None => true,
    }
    &&& v.settings@ == or_default(f.settings, "{}"@)
    &&& v.mapped_kind == filter_kind_of(t)
    &&& opt_text(v.unsupported_reason) == filter_reason(t, f.method)
}

/// The notes on the filters that cannot be imported exactly, in order:
/// `<name> (<reason>)`.
pub open spec fn unsupported_notes(views: Seq<ObsFilterView>) -> Seq<Seq<char>>
    decreases views.len(),
{
    if views.len() == 0 {
        seq![]
    } else {
        let rest = unsupported_notes(views.drop_last());
        match views.last().unsupported_reason {
            Some(r) => rest.push(views.last().name@ + " ("@ + r@ + ")"@),
            None => rest,
        }
    }
}

/// The views of a list of notes.
pub open spec fn note_views(v: Seq<String>) -> Seq<Seq<char>> {
    v.map_values(|s: String| s@)
}

/// OBS source types that capture an audio input.
pub open spec fn audio_input_id(id: Seq<char>) -> bool {
    contains(id, "wasapi_input"@) || contains(id, "pulse_input"@) || id == "wasapi_input_capture"@
        || contains(id, "input_capture"@)
}

/// A source the importer shows: an audio input with a name.
pub open spec fn previewable(s: ObsSourceSpec) -> bool {
    (s.id matches Some(id) && audio_input_id(id)) && s.name is Some
}

/// The filters of a source (none when the list is absent).
pub open spec fn filters_of(s: ObsSourceSpec) -> Seq<ObsFilterSpec> {
    match s.filters {
        Some(f) => f,
        None => seq![],
    }
}

/// `p` previews source `s`: its name and device, its filters imported in
/// order, and the notes on those that cannot be imported exactly.
pub open spec fn previews_source(p: ObsImportPreview, s: ObsSourceSpec) -> bool {
    &&& p.source_name@ == s.name->0
    &&& opt_text(p.device_id) == s.device_id
    &&& p.filters@.len() == filters_of(s).len()
    &&& forall|i: int| 0 <= i < filters_of(s).len() ==> maps_filter(#[trigger] p.filters@[i], filters_of(s)[i])
    &&& note_views(p.unsupported@) == unsupported_notes(p.filters@)
}

/// The sources the importer shows, in order.
pub open spec fn previewable_sources(e: Seq<ObsSourceSpec>) -> Seq<ObsSourceSpec>
    decreases e.len(),
{
    if e.len() == 0 {
        seq![]
    } else {
        let rest = previewable_sources(e.drop_last());
        if previewable(e.last()) {
            rest.push(e.last())
        } else {
            rest
        }
    }
}

/// `r` previews exactly the shown sources of `e`, in order.
pub open spec fn previews_all(r: Seq<ObsImportPreview>, e: Seq<ObsSourceSpec>) -> bool {
    let k = previewable_sources(e);
    &&& r.len() == k.len()
    &&& forall|i: int| 0 <= i < k.len() ==> previews_source(#[trigger] r[i], k[i])
}

fn text_or(s: &Option<String>, d: &str) -> (r: String)
    ensures
        r@ == or_default(opt_text(*s), d@),
{
    match s {
        Some(x) => owned(x.as_str()),
        None => owned(d),
    }
}

fn copy_opt(s: &Option<String>) -> (r: Option<String>)
    ensures
        opt_text(r) == opt_text(*s),
{
    match s {
        Some(x) => Some(owned(x.as_str())),
        None => None,
    }
}

fn kind_and_reason(t: &str, method: &Option<String>) -> (r: (Option<FilterKind>, Option<String>))
    ensures
        r.0 == filter_kind_of(t@),
        opt_text(r.1) == filter_reason(t@, opt_text(*method)),
{
    let c = chars_of(t);
    let s = c.as_slice();
    if chars_are(s, "noise_suppress_filter") || chars_are(s, "noise_suppress_filter_v2") {
        let m = text_or(method, "rnnoise");
        if str_is(m.as_str(), "rnnoise") {
            (Some(FilterKind::Rnnoise), None)
        } else {
            let head = concat_str("OBS method '", m.as_str());
            (Some(FilterKind::Rnnoise), Some(concat_str(head.as_str(), "' is not RNNoise; mapped approximately")))
        }
    } else if chars_are(s, "gain_filter") {
        (Some(FilterKind::Gain), None)
    } else if chars_are(s, "compressor_filter") {
        (Some(FilterKind::Compressor), None)
    } else if chars_are(s, "expander_filter") {
        (Some(FilterKind::Expander), None)
    } else if chars_are(s, "noise_gate_filter") {
        (Some(FilterKind::Gate), None)
    } else if chars_are(s, "limiter_filter") {
        (Some(FilterKind::Limiter), None)
    } else {
        (None, Some(concat_str("Unsupported: ", t)))
    }
}

fn str_is(a: &str, b: &str) -> (r: bool)
    ensures
        r == (a@ == b@),
{
    crate::text::str_eq(a, b)
}

/// Imports one OBS filter (see `maps_filter`).
pub fn map_filter(f: &ObsFilterFields) -> (r: ObsFilterView)
    ensures
        maps_filter(r, f@),
{
    let name = text_or(&f.name, "Unnamed");
    let filter_type = text_or(&f.id, "unknown");
    let enabled = match f.enabled {
        Some(b) => b,
        None => true,
    };
    let settings = text_or(&f.settings, "{}");
    let (mapped_kind, unsupported_reason) = kind_and_reason(filter_type.as_str(), &f.method);
    ObsFilterView { name, filter_type, enabled, settings, mapped_kind, unsupported_reason }
}

/// Whether an OBS source type captures an audio input.
pub fn is_audio_input(id: &str) -> (r: bool)
    ensures
        r == audio_input_id(id@),
{
    let c = chars_of(id);
    let s = c.as_slice();
    contains_str(s, "wasapi_input") || contains_str(s, "pulse_input") || chars_are(s, "wasapi_input_capture")
        || contains_str(s, "input_capture")
}

/// Previews one OBS source: an audio input with a name is shown with its
/// filters imported and the notes on those that cannot be imported
/// exactly; any other source is not shown.
pub fn preview_source(s: &ObsSourceFields) -> (r: Option<ObsImportPreview>)
    ensures
        previewable(s@) ==> (r matches Some(p) && previews_source(p, s@)),
        !previewable(s@) ==> r is None,
{
    let id = match &s.id {
        Some(id) => id,
        None => {
            return None;
        },
    };
    if !is_audio_input(id.as_str()) {
        return None;
    }
    let name = match &s.name {
        Some(n) => owned(n.as_str()),
        None => {
            return None;
        },
    };
    let device_id = copy_opt(&s.device_id);
    let mut filters: Vec<ObsFilterView> = Vec::new();
    let mut unsupported: Vec<String> = Vec::new();
    let ghost fs = filters_of(s@);
    proof {
        assert(note_views(unsupported@) =~= unsupported_notes(filters@));
    }
    match &s.filters {
        Some(list) => {
            proof {
                assert(fs == list@.map_values(|f: ObsFilterFields| f@));
            }
            let mut i: usize = 0;
            while i < list.len()
                invariant
                    i <= list@.len(),
                    fs == list@.map_values(|f: ObsFilterFields| f@),
                    filters@.len() == i,
                    forall|j: int| 0 <= j < i ==> maps_filter(#[trigger] filters@[j], fs[j]),
                    note_views(unsupported@) == unsupported_notes(filters@),
                decreases list@.len() - i,
            {
                let view = map_filter(&list[i]);
                let ghost before = filters@;
                let note = match &view.unsupported_reason {
                    Some(reason) => {
                        let a = concat_str(view.name.as_str(), " (");
                        let b = concat_str(a.as_str(), reason.as_str());
                        Some(concat_str(b.as_str(), ")"))
                    },
                    None => None,
                };
                filters.push(view);
                proof {
                    assert(filters@.drop_last() =~= before);
                }
                match note {
                    Some(n) => {
                        let ghost old_notes = unsupported@;
                        unsupported.push(n);
                        proof {
                            assert(note_views(unsupported@) =~= note_views(old_notes).push(n@));
                        }
                    },
                    None => {},
                }
                i = i + 1;
            }
            proof {
                assert(filters@.len() == fs.len());
            }
        },
        None => {
            proof {
                assert(note_views(unsupported@) =~= Seq::<Seq<char>>::empty());
                assert(fs =~= Seq::<ObsFilterSpec>::empty());
            }
        },
    }
    Some(ObsImportPreview { source_name: name, device_id, filters, unsupported })
}

/// Previews a list of OBS sources: the audio inputs with a name, in order.
pub fn preview_sources(e: &[ObsSourceFields]) -> (r: Vec<ObsImportPreview>)
    ensures
        previews_all(r@, source_views(e@)),
{
    let mut out: Vec<ObsImportPreview> = Vec::new();
    let mut i: usize = 0;
    while i < e.len()
        invariant
            i <= e@.len(),
            previews_all(out@, source_views(e@.take(i as int))),
        decreases e@.len() - i,
    {
        proof {
            assert(source_views(e@.take(i + 1)).drop_last() =~= source_views(e@.take(i as int)));
            assert(source_views(e@.take(i + 1)).last() == e@[i as int]@);
        }
        let p = preview_source(&e[i]);
        let ghost before = out@;
        match p {
            Some(p) => {
                out.push(p);
                proof {
                    let k = previewable_sources(source_views(e@.take(i + 1)));
                    assert forall|j: int| 0 <= j < k.len() implies previews_source(#[trigger] out@[j], k[j]) by {
                        if j < before.len() {
                            assert(out@[j] == before[j]);
                        }
                    }
                }
            },
            None => {},
        }
        i = i + 1;
    }
    proof {
        assert(e@.take(e@.len() as int) =~= e@);
    }
    out
}

/// The sources a scene collection lists: `sources`, then `aux-audio`.
pub open spec fn scene_sources(sc: ObsSceneSpec) -> Seq<ObsSourceSpec> {
    (match sc.sources {
        Some(v) => v,
        None => seq![],
    }) + (match sc.aux_audio {
        Some(v) => v,
        None => seq![],
    })
}

/// Reads an OBS scene collection and previews its microphone sources, from
/// `sources` then `aux-audio`; text that is not JSON gives the parser's
/// message.
pub fn parse_scene_collection(json: &str) -> (r: Result<Vec<ObsImportPreview>, String>)
    ensures
        match scene_fields(json@) {
            Err(m) => r matches Err(x) && x@ == m,
            Ok(sc) => r matches Ok(v) && previews_all(v@, scene_sources(sc)),
        },
{
    let fields = match read_scene_collection(json) {
        Ok(f) => f,
        Err(m) => {
            return Err(m);
        },
    };
    let mut all: Vec<ObsSourceFields> = Vec::new();
    match fields.sources {
        Some(v) => {
            all = v;
        },
        None => {},
    }
    let ghost first = all@;
    match fields.aux_audio {
        Some(v) => {
            let mut v = v;
            all.append(&mut v);
        },
        None => {},
    }
    proof {
        assert(source_views(all@) =~= scene_sources(fields@));
    }
    Ok(preview_sources(all.as_slice()))
}

/// The filter order of a preset imported from a preview: a slot for each
/// filter that maps onto a Voxely filter, in order, named after the OBS
/// filter and switched as it was; then a limiter when none was imported.
pub open spec fn mapped_slots(filters: Seq<ObsFilterView>) -> Seq<(Seq<char>, FilterKind, bool)>
    decreases filters.len(),
{
    if filters.len() == 0 {
        seq![]
    } else {
        let rest = mapped_slots(filters.drop_last());
        let f = filters.last();
        match f.mapped_kind {
            Some(k) => rest.push((f.name@, k, f.enabled)),
            None => rest,
        }
    }
}

/// A slot as its id, kind and switch.
pub open spec fn slot_view(s: FilterSlot) -> (Seq<char>, FilterKind, bool) {
    (s.id@, s.kind, s.enabled)
}

/// Whether some slot holds a limiter.
pub open spec fn has_limiter(slots: Seq<(Seq<char>, FilterKind, bool)>) -> bool {
    exists|i: int| 0 <= i < slots.len() && (#[trigger] slots[i]).1 == FilterKind::Limiter
}

/// The imported order, with the closing limiter where it is missing.
pub open spec fn imported_slots(filters: Seq<ObsFilterView>) -> Seq<(Seq<char>, FilterKind, bool)> {
    let m = mapped_slots(filters);
    if has_limiter(m) {
        m
    } else {
        m.push(("limiter"@, FilterKind::Limiter, true))
    }
}

/// The filter order of a preset imported from `preview` (see
/// `imported_slots`); the filters' settings, which are numbers, are read
/// elsewhere.
pub fn imported_order(preview: &ObsImportPreview) -> (r: Vec<FilterSlot>)
    ensures
        r@.map_values(|x: FilterSlot| slot_view(x)) == imported_slots(preview.filters@),
{
    let filters = &preview.filters;
    let mut order: Vec<FilterSlot> = Vec::new();
    let mut limiter = false;
    let mut i: usize = 0;
    while i < filters.len()
        invariant
            i <= filters@.len(),
            filters@ == preview.filters@,
            order@.map_values(|x: FilterSlot| slot_view(x)) == mapped_slots(filters@.take(i as int)),
            limiter == has_limiter(mapped_slots(filters@.take(i as int))),
        decreases filters@.len() - i,
    {
        proof {
            assert(filters@.take(i + 1).drop_last() =~= filters@.take(i as int));
            assert(filters@.take(i + 1).last() == filters@[i as int]);
        }
        let ghost before = order@;
        match filters[i].mapped_kind {
            Some(kind) => {
                let id = owned(filters[i].name.as_str());
                order.push(FilterSlot { id, kind, enabled: filters[i].enabled });
                proof {
                    let m = mapped_slots(filters@.take(i + 1));
                    assert(order@.map_values(|x: FilterSlot| slot_view(x)) =~= before.map_values(
                        |x: FilterSlot| slot_view(x),
                    ).push(slot_view(order@[before.len() as int])));
                    assert(order@.map_values(|x: FilterSlot| slot_view(x)) =~= m);
                    if kind == FilterKind::Limiter {
                        assert(m[m.len() - 1].1 == FilterKind::Limiter);
                    } else {
                        let prev = mapped_slots(filters@.take(i as int));
                        if has_limiter(m) {
                            let j = choose|j: int| 0 <= j < m.len() && (#[trigger] m[j]).1 == FilterKind::Limiter;
                            assert(j < prev.len());
                            assert(m[j] == prev[j]);
                        }
                        if has_limiter(prev) {
                            let j = choose|j: int| 0 <= j < prev.len() && (#[trigger] prev[j]).1 == FilterKind::Limiter;
                            assert(m[j] == prev[j]);
                        }
                    }
                }
                if kind == FilterKind::Limiter {
                    limiter = true;
                }
            },
            None => {},
        }
        i = i + 1;
    }
    proof {
        assert(filters@.take(filters@.len() as int) =~= filters@);
    }
    if !limiter {
        let ghost before = order@;
        order.push(FilterSlot { id: owned("limiter"), kind: FilterKind::Limiter, enabled: true });
        proof {
            assert(order@.map_values(|x: FilterSlot| slot_view(x)) =~= before.map_values(
                |x: FilterSlot| slot_view(x),
            ).push(("limiter"@, FilterKind::Limiter, true)));
        }
    }
    order
}

/// Each supported OBS filter type is imported as its own Voxely filter:
/// noise suppression (either version) as RNNoise, gain as gain, compressor
/// as compressor, expander as expander, noise gate as gate, limiter as
/// limiter; two different types share a Voxely filter only when both are
/// noise suppression; any other type is not imported.
pub proof fn law_filter_types_map_to_their_own_kind(t1: Seq<char>, t2: Seq<char>)
    ensures
        filter_kind_of("noise_suppress_filter"@) == Some(FilterKind::Rnnoise),
        filter_kind_of("noise_suppress_filter_v2"@) == Some(FilterKind::Rnnoise),
        filter_kind_of("gain_filter"@) == Some(FilterKind::Gain),
        filter_kind_of("compressor_filter"@) == Some(FilterKind::Compressor),
        filter_kind_of("expander_filter"@) == Some(FilterKind::Expander),
        filter_kind_of("noise_gate_filter"@) == Some(FilterKind::Gate),
        filter_kind_of("limiter_filter"@) == Some(FilterKind::Limiter),
        filter_kind_of(t1) is Some && filter_kind_of(t1) == filter_kind_of(t2) && t1 != t2 ==> noise_filter(t1)
            && noise_filter(t2),
        filter_kind_of(t1) != Some(FilterKind::HighPass),
{
    reveal_strlit("noise_suppress_filter");
    reveal_strlit("noise_suppress_filter_v2");
    reveal_strlit("gain_filter");
    reveal_strlit("compressor_filter");
    reveal_strlit("expander_filter");
    reveal_strlit("noise_gate_filter");
    reveal_strlit("limiter_filter");
    let ns = "noise_suppress_filter"@;
    let ns2 = "noise_suppress_filter_v2"@;
    let gain = "gain_filter"@;
    let comp = "compressor_filter"@;
    let exp = "expander_filter"@;
    let gate = "noise_gate_filter"@;
    let lim = "limiter_filter"@;
    assert(gain[0] != ns[0] && gain[0] != ns2[0]);
    assert(comp[0] != ns[0] && comp[0] != ns2[0] && comp[0] != gain[0]);
    assert(exp[0] != ns[0] && exp[0] != ns2[0] && exp[0] != gain[0] && exp[0] != comp[0]);
    assert(gate[6] != ns[6] && gate[6] != ns2[6] && gate[0] != gain[0] && gate[0] != comp[0] && gate[0] != exp[0]);
    assert(lim[0] != ns[0] && lim[0] != ns2[0] && lim[0] != gain[0] && lim[0] != comp[0] && lim[0] != exp[0]
        && lim[0] != gate[0]);
}

/// What is said about an imported filter: nothing for a supported type
/// (noise suppression by RNNoise, named or by default, included);
/// noise suppression by another method is imported approximately, saying
/// which method; an unsupported type is named as such.
pub proof fn law_filter_reasons(t: Seq<char>, m: Seq<char>)
    ensures
        filter_kind_of(t) is Some && !noise_filter(t) ==> filter_reason(t, Some(m)) is None,
        noise_filter(t) ==> filter_reason(t, None) is None && filter_reason(t, Some("rnnoise"@)) is None,
        noise_filter(t) && m != "rnnoise"@ ==> filter_reason(t, Some(m)) == Some(
            "OBS method '"@ + m + "' is not RNNoise; mapped approximately"@,
        ),
        filter_kind_of(t) is None ==> filter_reason(t, Some(m)) == Some("Unsupported: "@ + t)
            && filter_reason(t, None) == Some("Unsupported: "@ + t),
        noise_filter(t) ==> filter_kind_of(t) == Some(FilterKind::Rnnoise),
{
}

} // verus!
