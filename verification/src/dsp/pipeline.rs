//! The filter graph of a processing preset: which filters run, in which
//! order.
use vstd::prelude::*;

use crate::text::owned;

verus! {

/// A filter of the processing chain.
#[derive(Debug, Clone, Copy, PartialEq, Eq, Hash, Structural)]
pub enum FilterKind {
    HighPass,
    Rnnoise,
    Gain,
    Compressor,
    Expander,
    Gate,
    Limiter,
}

/// One place in a preset's filter order.
#[derive(Debug, Clone, PartialEq)]
pub struct FilterSlot {
    pub id: String,
    pub kind: FilterKind,
    pub enabled: bool,
}

/// A slot of the given id and kind, switched on or off.
pub fn slot(id: &str, kind: FilterKind, enabled: bool) -> (r: FilterSlot)
    ensures
        r.id@ == id@,
        r.kind == kind,
        r.enabled == enabled,
{
    FilterSlot { id: owned(id), kind, enabled }
}

/// What settings validation reads of a preset: its id and its filter
/// order.
#[derive(Debug, Clone, PartialEq)]
pub struct PresetGraph {
    pub id: String,
    pub order: Vec<FilterSlot>,
}

/// No filter kind occurs twice in the order.
pub open spec fn kinds_distinct(order: Seq<FilterSlot>) -> bool {
    forall|i: int, j: int| 0 <= i < j < order.len() ==> #[trigger] order[i].kind != #[trigger] order[j].kind
}

/// Whether no filter kind occurs twice in `order`.
pub fn has_distinct_kinds(order: &[FilterSlot]) -> (r: bool)
    ensures
        r == kinds_distinct(order@),
{
    let mut j: usize = 0;
    while j < order.len()
        invariant
            j <= order@.len(),
            forall|a: int, b: int| 0 <= a < b < j ==> #[trigger] order@[a].kind != #[trigger] order@[b].kind,
        decreases order@.len() - j,
    {
        let mut i: usize = 0;
        while i < j
            invariant
                i <= j < order@.len(),
                forall|a: int| 0 <= a < i ==> #[trigger] order@[a].kind != order@[j as int].kind,
            decreases j - i,
        {
            if order[i].kind == order[j].kind {
                return false;
            }
            i = i + 1;
        }
        j = j + 1;
    }
    true
}

} // verus!
