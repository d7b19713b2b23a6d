//! The data model: a plan, and the partial update of one.

use vstd::prelude::*;

verus! {

/// A named, time-bounded record that refers to an adaptation.
///
/// `id` is assigned by the storage backend when the plan is first stored and
/// is empty until then. `start` and `end` are encoded timestamps that this
/// library carries without reading them.
#[derive(Debug, Clone, PartialEq, Eq)]
pub struct Plan {
    pub adaptation_id: String,
    pub end: String,
    pub id: String,
    pub name: String,
    pub start: String,
}

/// A plan as a mathematical value.
pub struct PlanView {
    pub adaptation_id: Seq<char>,
    pub end: Seq<char>,
    pub id: Seq<char>,
    pub name: Seq<char>,
    pub start: Seq<char>,
}

impl View for Plan {
    type V = PlanView;

    open spec fn view(&self) -> PlanView {
        PlanView {
            adaptation_id: self.adaptation_id@,
            end: self.end@,
            id: self.id@,
            name: self.name@,
            start: self.start@,
        }
    }
}

/// A partial update of a plan. A field that is absent is left as it is; a
/// field that is present, the empty string included, replaces the stored one.
/// The identifier cannot be changed.
#[derive(Debug, Clone, PartialEq, Eq)]
pub struct PatchPlan {
    pub adaptation_id: Option<String>,
    pub end: Option<String>,
    pub name: Option<String>,
    pub start: Option<String>,
}

/// A partial update as a mathematical value.
pub struct PatchPlanView {
    pub adaptation_id: Option<Seq<char>>,
    pub end: Option<Seq<char>>,
    pub name: Option<Seq<char>>,
    pub start: Option<Seq<char>>,
}

/// The text of an optional string.
pub open spec fn text_of(field: Option<String>) -> Option<Seq<char>> {
    match field {
        Some(text) => Some(text@),
        None => None,
    }
}

impl View for PatchPlan {
    type V = PatchPlanView;

    open spec fn view(&self) -> PatchPlanView {
        PatchPlanView {
            adaptation_id: text_of(self.adaptation_id),
            end: text_of(self.end),
            name: text_of(self.name),
            start: text_of(self.start),
        }
    }
}

impl PatchPlanView {
    /// The update that changes nothing.
    pub open spec fn is_empty(self) -> bool {
        self.adaptation_id is None && self.end is None && self.name is None && self.start is None
    }
}

impl PlanView {
    /// This plan after `patch`: each field that the update holds replaces the
    /// plan's, every other field and the identifier stay.
    pub open spec fn patched(self, patch: PatchPlanView) -> PlanView {
        PlanView {
            adaptation_id: patch.adaptation_id.unwrap_or(self.adaptation_id),
            end: patch.end.unwrap_or(self.end),
            id: self.id,
            name: patch.name.unwrap_or(self.name),
            start: patch.start.unwrap_or(self.start),
        }
    }
}

} // verus!
