//! Measuring a font: from a key and a size to line metrics.

use crate::cache::CacheModel;
use crate::error::Error;
use crate::metrics::{
    first_advance, lemma_line_height_grows, lemma_line_height_sign, metrics_from_design,
    scaled_metrics, DesignMetrics, Metrics, REFERENCE_CHARACTER,
};
use crate::rasterizer::{resolved_index, DirectWriteRasterizer};
use crate::types::{FontKey, Size};
use vstd::prelude::*;

verus! {

/// What the platform has answered so far while one font is measured.
#[derive(Debug)]
pub enum MetricsProgress {
    /// Nothing was asked yet.
    Requested,
    /// The face was asked for the glyph index of the reference character.
    GlyphIndex(Result<Vec<u16>, i32>),
    /// The face was asked for its design metrics, and for the advances of
    /// the reference glyph in design units.
    Measured { design: DesignMetrics, advances: Result<Vec<u32>, i32> },
}

/// What to do next while one font is measured.
#[derive(Debug)]
pub enum MetricsAction {
    /// Ask the face for the glyph index of this character.
    LookupGlyph { character: char },
    /// Ask the face for its design metrics and for those of this glyph.
    Measure { glyph_index: u16 },
    /// The measuring has ended, with this result.
    Finish(Result<Metrics, Error>),
}

/// Whether `result` is what measuring gives at `size` for a face with the
/// metrics `design` whose reference glyph has the advances `advances`.
pub open spec fn is_metrics_result(
    result: Result<Metrics, Error>,
    size: Size,
    design: DesignMetrics,
    advances: Result<Vec<u32>, i32>,
) -> bool {
    match first_advance(advances) {
        Some(width) => result == Ok::<Metrics, Error>(scaled_metrics(design, size, width)),
        None => result matches Err(Error::MetricsNotFound),
    }
}

/// Whether `action` is the step that follows `progress` while a font is
/// measured at `size`, where `known` says whether the rasterizer issued the
/// font's key.
///
/// With a key that was not issued the measuring fails at once. Else the
/// reference character's glyph is looked up, then the face and that glyph
/// are measured, and the metrics are those design values at `size`.
pub open spec fn is_metrics_step(
    known: bool,
    size: Size,
    progress: MetricsProgress,
    action: MetricsAction,
) -> bool {
    if !known {
        action matches MetricsAction::Finish(Err(Error::UnknownFontKey))
    } else {
        match progress {
            MetricsProgress::Requested => {
                action matches MetricsAction::LookupGlyph { character } && character
                    == REFERENCE_CHARACTER
            },
            MetricsProgress::GlyphIndex(lookup) => {
                action matches MetricsAction::Measure { glyph_index } && glyph_index
                    == resolved_index(lookup)
            },
            MetricsProgress::Measured { design, advances } => {
                action matches MetricsAction::Finish(result) && is_metrics_result(
                    result,
                    size,
                    design,
                    advances,
                )
            },
        }
    }
}

impl<F, C, S> DirectWriteRasterizer<F, C, S> {
    /// Takes the next step of measuring the font of the given key at the
    /// given size.
    pub fn metrics(&self, key: FontKey, size: Size, progress: MetricsProgress) -> (action:
        MetricsAction)
        ensures
            is_metrics_step(self.cache().get(key) is Some, size, progress, action),
            self.cache().wf(),
            !(key.owner() == self.owner() && key.token() < self.cache().issued) ==> action
                matches MetricsAction::Finish(Err(Error::UnknownFontKey)),
    {
        if self.get_loaded_font(key).is_err() {
            return MetricsAction::Finish(Err(Error::UnknownFontKey));
        }
        match progress {
            MetricsProgress::Requested => MetricsAction::LookupGlyph {
                character: REFERENCE_CHARACTER,
            },
            MetricsProgress::GlyphIndex(lookup) => MetricsAction::Measure {
                glyph_index: self.get_glyph_index(&lookup),
            },
            MetricsProgress::Measured { design, advances } => MetricsAction::Finish(
                metrics_from_design(&design, size, &advances),
            ),
        }
    }
}

/// Measuring with a key that the rasterizer did not issue fails with
/// `UnknownFontKey`, whatever the platform has answered.
pub proof fn lemma_unknown_key_is_not_measured(
    size: Size,
    progress: MetricsProgress,
    action: MetricsAction,
)
    requires
        is_metrics_step(false, size, progress, action),
    ensures
        action matches MetricsAction::Finish(Err(Error::UnknownFontKey)),
{
}

/// Measuring with a key that another rasterizer issued fails with
/// `UnknownFontKey`, whatever the key's position and whatever the platform
/// has answered.
pub proof fn lemma_foreign_key_is_not_measured<F>(
    cache: CacheModel<F>,
    key: FontKey,
    size: Size,
    progress: MetricsProgress,
    action: MetricsAction,
)
    requires
        cache.wf(),
        key.owner() != cache.owner,
        is_metrics_step(cache.get(key) is Some, size, progress, action),
    ensures
        action matches MetricsAction::Finish(Err(Error::UnknownFontKey)),
{
}

/// Measuring fails with `MetricsNotFound` exactly when the face gave no
/// advance for the reference glyph, and in no other way once the key is known.
pub proof fn lemma_metrics_fail_without_advance(
    size: Size,
    design: DesignMetrics,
    advances: Result<Vec<u32>, i32>,
    action: MetricsAction,
)
    requires
        is_metrics_step(true, size, MetricsProgress::Measured { design, advances }, action),
    ensures
        action matches MetricsAction::Finish(result) && (result is Err <==> first_advance(
            advances,
        ) is None) && (result matches Err(error) ==> error is MetricsNotFound),
{
}

/// The metrics that measuring gives have a positive line height exactly when
/// the face's design line height and the size are positive, and the average
/// advance is the advance of the reference glyph at the size.
pub proof fn lemma_measured_line_height(
    design: DesignMetrics,
    advances: Result<Vec<u32>, i32>,
    size: Size,
    action: MetricsAction,
)
    requires
        is_metrics_step(true, size, MetricsProgress::Measured { design, advances }, action),
        action matches MetricsAction::Finish(Ok(_)),
    ensures
        action matches MetricsAction::Finish(Ok(metrics)) && first_advance(advances)
            matches Some(width) && {
            &&& metrics.line_height > 0 <==> design.line_height() > 0 && size.units() > 0
            &&& metrics.denominator > 0 <==> design.units_per_em > 0
            &&& metrics.average_advance == width * size.units()
            &&& metrics.denominator == design.units_per_em * 64
        },
{
    let width = first_advance(advances).unwrap();
    lemma_line_height_sign(design, size, width);
    assert(width * size.units() <= 0xFFFF_FFFF * 0xFFFF_FFFF) by (nonlinear_arith)
        requires
            0 <= width <= 0xFFFF_FFFF,
            0 <= size.units() <= 0xFFFF_FFFF,
    ;
}

/// One face measured at two sizes has the larger line height at the larger
/// size, provided its design line height and its units per em are positive.
pub proof fn lemma_larger_size_larger_line(
    design: DesignMetrics,
    advances: Result<Vec<u32>, i32>,
    smaller: Size,
    larger: Size,
    at_smaller: MetricsAction,
    at_larger: MetricsAction,
)
    requires
        is_metrics_step(true, smaller, MetricsProgress::Measured { design, advances }, at_smaller),
        is_metrics_step(true, larger, MetricsProgress::Measured { design, advances }, at_larger),
        at_smaller matches MetricsAction::Finish(Ok(_)),
        smaller.units() < larger.units(),
        design.line_height() > 0,
        design.units_per_em > 0,
    ensures
        at_smaller matches MetricsAction::Finish(Ok(small)) && at_larger
            matches MetricsAction::Finish(Ok(large)) && {
            &&& large.line_height > small.line_height
            &&& large.denominator == small.denominator
            &&& large.denominator > 0
        },
{
    let width = first_advance(advances).unwrap();
    lemma_line_height_grows(design, smaller, larger, width);
}

} // verus!
