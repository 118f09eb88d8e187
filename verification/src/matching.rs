//! Choosing a face within a family.

use crate::face::{face_style_for, face_weight_for, FontStretch, FontStyle, FontWeight};
use crate::types::{Slant, Style, StyleView, Weight};
use vstd::prelude::*;

verus! {

/// How the platform is to pick a face from a family.
#[derive(Debug, PartialEq, Eq)]
pub enum MatchPlan {
    /// Let the platform choose the face nearest to these attributes.
    BestMatch { weight: FontWeight, stretch: FontStretch, style: FontStyle },
    /// Take the first face with exactly this name.
    ByFaceName(String),
}

/// What a `MatchPlan` says, with the face name as a sequence of characters.
pub enum MatchPlanView {
    BestMatch { weight: FontWeight, stretch: FontStretch, style: FontStyle },
    ByFaceName(Seq<char>),
}

impl View for MatchPlan {
    type V = MatchPlanView;

    open spec fn view(&self) -> MatchPlanView {
        match *self {
            MatchPlan::BestMatch { weight, stretch, style } => MatchPlanView::BestMatch {
                weight,
                stretch,
                style,
            },
            MatchPlan::ByFaceName(name) => MatchPlanView::ByFaceName(name@),
        }
    }
}

/// The attributes to ask the platform's nearest-match search for: the
/// requested weight and slant at normal width.
pub open spec fn best_match_for(weight: Weight, slant: Slant) -> MatchPlanView {
    MatchPlanView::BestMatch {
        weight: face_weight_for(weight),
        stretch: FontStretch::Normal,
        style: face_style_for(slant),
    }
}

/// The plan that answers a style.
pub open spec fn plan_for(style: StyleView) -> MatchPlanView {
    match style {
        StyleView::Description { slant, weight } => best_match_for(weight, slant),
        StyleView::Specific(name) => MatchPlanView::ByFaceName(name),
    }
}

/// Decides how the platform is to pick a face for a style.
pub fn match_plan(style: &Style) -> (plan: MatchPlan)
    ensures
        plan@ == plan_for(style@),
{
    match style {
        Style::Description { slant, weight } => MatchPlan::BestMatch {
            weight: FontWeight::from(*weight),
            stretch: FontStretch::Normal,
            style: FontStyle::from(*slant),
        },
        Style::Specific(name) => MatchPlan::ByFaceName(name.clone()),
    }
}

/// Whether the face at `index` could be read and has exactly the name `wanted`.
pub open spec fn face_is_named(names: Seq<Option<String>>, index: int, wanted: Seq<char>) -> bool {
    &&& 0 <= index < names.len()
    &&& names[index] matches Some(name)
    &&& name@ == wanted
}

/// Whether `index` is the first face with exactly the name `wanted`.
pub open spec fn is_first_face_named(
    names: Seq<Option<String>>,
    index: int,
    wanted: Seq<char>,
) -> bool {
    &&& face_is_named(names, index, wanted)
    &&& forall|earlier: int| 0 <= earlier < index ==> !face_is_named(names, earlier, wanted)
}

/// Whether no face has exactly the name `wanted`.
pub open spec fn no_face_named(names: Seq<Option<String>>, wanted: Seq<char>) -> bool {
    forall|index: int| !face_is_named(names, index, wanted)
}

/// What to do after one face of a family was read while the face of a
/// given name is looked for.
#[derive(Clone, Copy, Debug, PartialEq, Eq, Structural)]
pub enum ScanStep {
    /// The face just read is the one.
    Take,
    /// Read the face at this position next.
    Open(u32),
    /// The family has no face of the name.
    NotFound,
}

/// What to do after the face at `index` of a family of `count` faces was
/// read, where `name` is the face's name, or `None` where it could not be
/// read: a face of the wanted name is taken, and else the next face is
/// read, as long as there is one.
pub open spec fn scan_step(
    wanted: Seq<char>,
    index: u32,
    count: u32,
    name: Option<String>,
) -> ScanStep {
    if name matches Some(read) && read@ == wanted {
        ScanStep::Take
    } else if index + 1 < count {
        ScanStep::Open((index + 1) as u32)
    } else {
        ScanStep::NotFound
    }
}

/// Decides what to do after one face of a family was read.
pub fn after_face(wanted: &String, index: u32, count: u32, name: &Option<String>) -> (step:
    ScanStep)
    ensures
        step == scan_step(wanted@, index, count, *name),
{
    let matches = match name {
        Some(read) => {
            let same = *read == *wanted;
            same
        },
        None => false,
    };
    if matches {
        ScanStep::Take
    } else if index < u32::MAX && index + 1 < count {
        ScanStep::Open(index + 1)
    } else {
        ScanStep::NotFound
    }
}

/// Where the search for the face of a name ends when the faces are read in
/// order from `index` on, each as `scan_step` says: at the face that is
/// taken, or nowhere.
pub open spec fn scan(names: Seq<Option<String>>, wanted: Seq<char>, index: u32) -> Option<u32>
    decreases names.len() - index,
{
    if index >= names.len() || names.len() > u32::MAX {
        None
    } else {
        match scan_step(wanted, index, names.len() as u32, names[index as int]) {
            ScanStep::Take => Some(index),
            ScanStep::Open(next) => scan(names, wanted, next),
            ScanStep::NotFound => None,
        }
    }
}

/// Reading the faces in order, each as `scan_step` says, ends at the first
/// face of the wanted name, and nowhere exactly when no face has the name.
/// No face behind the first of the name is read.
pub proof fn lemma_scan_finds_first(names: Seq<Option<String>>, wanted: Seq<char>, index: u32)
    requires
        names.len() <= u32::MAX,
        index <= names.len(),
        forall|earlier: int| 0 <= earlier < index ==> !face_is_named(names, earlier, wanted),
    ensures
        match scan(names, wanted, index) {
            Some(found) => is_first_face_named(names, found as int, wanted),
            None => no_face_named(names, wanted),
        },
    decreases names.len() - index,
{
    if index < names.len() {
        match scan_step(wanted, index, names.len() as u32, names[index as int]) {
            ScanStep::Take => {},
            ScanStep::Open(next) => {
                lemma_scan_finds_first(names, wanted, next);
            },
            ScanStep::NotFound => {},
        }
    }
}

/// At most one index is the first face of a given name.
pub proof fn lemma_first_face_unique(
    names: Seq<Option<String>>,
    wanted: Seq<char>,
    first: int,
    second: int,
)
    requires
        is_first_face_named(names, first, wanted),
        is_first_face_named(names, second, wanted),
    ensures
        first == second,
{
}

} // verus!
