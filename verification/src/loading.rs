//! Loading a font: from a description to a key, through the cache or
//! through font matching.

use crate::cache::CacheModel;
use crate::error::Error;
use crate::face::Font;
use crate::matching::{after_face, match_plan, plan_for, scan_step, MatchPlan, ScanStep};
use crate::rasterizer::DirectWriteRasterizer;
use crate::types::{FontDesc, FontKey, Size, Style};
use vstd::prelude::*;

verus! {

/// What the platform has answered so far while one font is loaded.
#[derive(Debug)]
pub enum LoadProgress<F> {
    /// Nothing was asked yet.
    Requested,
    /// The family was looked up by name, and was or was not found.
    Family { found: bool },
    /// The faces of the family were counted.
    FaceCount(u32),
    /// The face at `index` of the family's `count` faces was opened: `name`
    /// is its name, or `None` where the face could not be opened.
    Face { index: u32, count: u32, name: Option<String> },
    /// The platform was asked for the face, and gave it or did not.
    Matched(Option<Font<F>>),
}

/// What to do next while one font is loaded.
#[derive(Debug)]
pub enum LoadAction {
    /// Look the family of this name up in the font collection.
    FindFamily { name: String },
    /// Find the face in the family: either ask the platform for the nearest
    /// match, or count the family's faces, which are then opened one by one.
    FindFace(MatchPlan),
    /// Open the face at this position in the family and read its name.
    OpenFace { index: u32 },
    /// The face that was opened last, at this position, is the one: hand
    /// it over.
    TakeFace { index: u32 },
    /// The load has ended, with this result.
    Finish(Result<FontKey, Error>),
}

/// Whether `action` ends the load with the error that nothing answers `desc`.
pub open spec fn reports_not_found(action: LoadAction, desc: FontDesc) -> bool {
    action matches LoadAction::Finish(Err(Error::FontNotFound(missing))) && missing == desc
}

/// Whether `action` is the step that follows `progress` while `desc` is
/// loaded into the cache `before`, and `after` is the cache it leaves.
///
/// A description that the cache holds ends the load at once with its key,
/// and the platform is asked nothing. For any other description the family
/// is looked up first; without the family the load fails; within the family
/// the face is searched as the style says; for a style that names a face the
/// faces are opened in order until one has that name, and the load fails if
/// none has; the face that was found is stored under the next key, and the
/// load fails if the platform gave none. Only that last step changes the
/// cache.
pub open spec fn is_load_step<F>(
    before: CacheModel<F>,
    after: CacheModel<F>,
    desc: FontDesc,
    progress: LoadProgress<F>,
    action: LoadAction,
) -> bool {
    if before.keys.contains_key(desc@) {
        &&& after == before
        &&& action matches LoadAction::Finish(Ok(key))
        &&& key == before.keys[desc@]
    } else {
        match progress {
            LoadProgress::Requested => {
                &&& after == before
                &&& action matches LoadAction::FindFamily { name }
                &&& name@ == desc.name@
            },
            LoadProgress::Family { found } => {
                &&& after == before
                &&& if found {
                    action matches LoadAction::FindFace(plan) && plan@ == plan_for(desc.style@)
                } else {
                    reports_not_found(action, desc)
                }
            },
            LoadProgress::FaceCount(count) => {
                &&& after == before
                &&& match desc.style {
                    Style::Specific(_) => if count > 0 {
                        action == (LoadAction::OpenFace { index: 0 })
                    } else {
                        reports_not_found(action, desc)
                    },
                    Style::Description { .. } => {
                        action matches LoadAction::FindFace(plan) && plan@ == plan_for(
                            desc.style@,
                        )
                    },
                }
            },
            LoadProgress::Face { index, count, name } => {
                &&& after == before
                &&& match desc.style {
                    Style::Specific(wanted) => match scan_step(wanted@, index, count, name) {
                        ScanStep::Take => action == (LoadAction::TakeFace { index }),
                        ScanStep::Open(next) => action == (LoadAction::OpenFace { index: next }),
                        ScanStep::NotFound => reports_not_found(action, desc),
                    },
                    Style::Description { .. } => {
                        action matches LoadAction::FindFace(plan) && plan@ == plan_for(
                            desc.style@,
                        )
                    },
                }
            },
            LoadProgress::Matched(found) => {
                &&& after == before.load(desc@, found).0
                &&& match found {
                    Some(_) => action matches LoadAction::Finish(Ok(key)) && Some(key)
                        == before.load(desc@, found).1,
                    None => reports_not_found(action, desc),
                }
            },
        }
    }
}

impl<F, C, S> DirectWriteRasterizer<F, C, S> {
    /// Takes the next step of loading the font that `desc` describes.
    ///
    /// The size plays no part: a face is the same at every size.
    pub fn load_font(&mut self, desc: &FontDesc, size: Size, progress: LoadProgress<F>) -> (action:
        LoadAction)
        ensures
            is_load_step(old(self).cache(), final(self).cache(), *desc, progress, action),
            old(self).cache().wf(),
            final(self).cache().wf(),
            final(self).owner() == old(self).owner(),
            final(self).same_settings(old(self)),
            action matches LoadAction::Finish(Ok(key)) ==> final(self).cache().key_for(desc@)
                == Some(key) && final(self).cache().get(key) is Some,
    {
        proof {
            self.lemma_fields();
        }
        let cached = self.fonts.key_for(desc);
        if let Some(key) = cached {
            proof {
                self.cache().lemma_loaded_key_resolves(desc@, None);
            }
            return LoadAction::Finish(Ok(key));
        }
        let action = match progress {
            LoadProgress::Requested => LoadAction::FindFamily { name: desc.name.clone() },
            LoadProgress::Family { found } => {
                if found {
                    LoadAction::FindFace(match_plan(&desc.style))
                } else {
                    LoadAction::Finish(Err(Error::FontNotFound(desc.clone())))
                }
            },
            LoadProgress::FaceCount(count) => match &desc.style {
                Style::Specific(_) => {
                    if count > 0 {
                        LoadAction::OpenFace { index: 0 }
                    } else {
                        LoadAction::Finish(Err(Error::FontNotFound(desc.clone())))
                    }
                },
                Style::Description { .. } => LoadAction::FindFace(match_plan(&desc.style)),
            },
            LoadProgress::Face { index, count, name } => match &desc.style {
                Style::Specific(wanted) => match after_face(wanted, index, count, &name) {
                    ScanStep::Take => LoadAction::TakeFace { index },
                    ScanStep::Open(next) => LoadAction::OpenFace { index: next },
                    ScanStep::NotFound => LoadAction::Finish(
                        Err(Error::FontNotFound(desc.clone())),
                    ),
                },
                Style::Description { .. } => LoadAction::FindFace(match_plan(&desc.style)),
            },
            LoadProgress::Matched(found) => {
                proof {
                    self.cache().lemma_loaded_key_resolves(desc@, found);
                }
                match self.fonts.load(desc, found) {
                    Some(key) => LoadAction::Finish(Ok(key)),
                    None => LoadAction::Finish(Err(Error::FontNotFound(desc.clone()))),
                }
            },
        };
        proof {
            self.lemma_fields();
        }
        action
    }
}

/// A description that the cache holds is loaded without asking the platform:
/// whatever has been answered, the load ends with the key the description
/// has, and the cache stays as it is.
pub proof fn lemma_cached_load_asks_nothing<F>(
    before: CacheModel<F>,
    after: CacheModel<F>,
    desc: FontDesc,
    progress: LoadProgress<F>,
    action: LoadAction,
)
    requires
        is_load_step(before, after, desc, progress, action),
        before.keys.contains_key(desc@),
    ensures
        action matches LoadAction::Finish(Ok(key)) && key == before.keys[desc@],
        after == before,
{
}

/// A load that has ended with a key is repeated by every later load of the
/// same description: the later load ends at once with the same key, and
/// changes nothing.
pub proof fn lemma_load_repeats<F>(
    before: CacheModel<F>,
    middle: CacheModel<F>,
    after: CacheModel<F>,
    desc: FontDesc,
    again: FontDesc,
    first_progress: LoadProgress<F>,
    first_action: LoadAction,
    second_progress: LoadProgress<F>,
    second_action: LoadAction,
)
    requires
        before.wf(),
        is_load_step(before, middle, desc, first_progress, first_action),
        is_load_step(middle, after, again, second_progress, second_action),
        again@ == desc@,
        first_action matches LoadAction::Finish(Ok(_)),
    ensures
        second_action matches LoadAction::Finish(Ok(second_key)) && first_action
            matches LoadAction::Finish(Ok(first_key)) && second_key == first_key,
        after == middle,
{
    if !before.keys.contains_key(desc@) {
        if let LoadProgress::Matched(found) = first_progress {
            before.lemma_loaded_key_resolves(desc@, found);
        }
    }
}

/// Two loads of different descriptions that both end with a key end with
/// different keys.
pub proof fn lemma_loads_give_distinct_keys<F>(
    before: CacheModel<F>,
    middle: CacheModel<F>,
    after: CacheModel<F>,
    first: FontDesc,
    second: FontDesc,
    first_progress: LoadProgress<F>,
    first_action: LoadAction,
    second_progress: LoadProgress<F>,
    second_action: LoadAction,
)
    requires
        before.wf(),
        middle.wf(),
        after.wf(),
        is_load_step(before, middle, first, first_progress, first_action),
        is_load_step(middle, after, second, second_progress, second_action),
        first@ != second@,
        first_action matches LoadAction::Finish(Ok(_)),
        second_action matches LoadAction::Finish(Ok(_)),
    ensures
        first_action matches LoadAction::Finish(Ok(first_key)) && second_action
            matches LoadAction::Finish(Ok(second_key)) && first_key != second_key,
{
    let first_key = first_action->Finish_0->Ok_0;
    let second_key = second_action->Finish_0->Ok_0;
    assert(middle.keys.contains_key(first@) && middle.keys[first@] == first_key) by {
        if !before.keys.contains_key(first@) {
            if let LoadProgress::Matched(found) = first_progress {
                before.lemma_loaded_key_resolves(first@, found);
            }
        }
    }
    assert(after.keys.contains_key(second@) && after.keys[second@] == second_key) by {
        if !middle.keys.contains_key(second@) {
            if let LoadProgress::Matched(found) = second_progress {
                middle.lemma_loaded_key_resolves(second@, found);
            }
        }
    }
    assert(after.keys.contains_key(first@) && after.keys[first@] == first_key);
}

} // verus!
