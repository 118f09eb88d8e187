//! Retrieving a glyph: from a glyph key to pixels, through the font's own
//! face or through a substitute.

use crate::cache::CacheModel;
use crate::error::{failure_message, AnalysisFailure, Error};
use crate::face::Font;
use crate::fallback::{asks_for, FallbackRequest};
use crate::glyph::{is_glyph_of, GlyphTexture, RasterizedGlyph};
use crate::mode::RenderPlan;
use crate::rasterizer::{resolved_index, DirectWriteRasterizer, MISSING_GLYPH_INDEX};
use crate::types::{GlyphKey, Size};
use vstd::prelude::*;

verus! {

/// Which face a question is about.
#[derive(Clone, Copy, Debug, PartialEq, Eq, Structural)]
pub enum FaceSource {
    /// The face of the font that the glyph key names.
    Primary,
    /// The substitute that the host's fallback sequence named.
    Fallback,
}

/// A run of glyphs to analyse: here always a single glyph, on its own.
#[derive(Clone, Copy, Debug, PartialEq, Eq, Structural)]
pub struct GlyphRun {
    pub glyph_index: u16,
    /// The em size to draw at.
    pub size: Size,
    pub advance: i32,
    pub advance_offset: i32,
    pub ascender_offset: i32,
    pub sideways: bool,
    pub bidi_level: u32,
}

/// The run of the one glyph `glyph_index` at `size`: upright, left to right,
/// without advance and without offset, since nothing stands beside it.
pub open spec fn single_glyph_run(glyph_index: u16, size: Size) -> GlyphRun {
    GlyphRun {
        glyph_index,
        size,
        advance: 0,
        advance_offset: 0,
        ascender_offset: 0,
        sideways: false,
        bidi_level: 0,
    }
}

/// What the platform has answered so far while one glyph is retrieved.
#[derive(Debug)]
pub enum GlyphProgress {
    /// Nothing was asked yet.
    Requested,
    /// The primary face was asked for the glyph index of the character.
    PrimaryIndex(Result<Vec<u16>, i32>),
    /// The host was asked for the user's locale.
    Locale(String),
    /// The fallback sequence was asked for a substitute, and named one or
    /// did not.
    Fallback { mapped: bool },
    /// The substitute was asked for the glyph index of the character.
    FallbackIndex(Result<Vec<u16>, i32>),
    /// The glyph of this index in this face was analysed.
    Texture {
        source: FaceSource,
        glyph_index: u16,
        analysis: Result<GlyphTexture, AnalysisFailure>,
    },
}

/// What to do next while one glyph is retrieved.
#[derive(Debug)]
pub enum GlyphAction {
    /// Ask this face for the glyph index of this character.
    LookupGlyph { source: FaceSource, character: char },
    /// Ask the host for the user's locale.
    QueryLocale,
    /// Put this question to the host's fallback sequence.
    MapFallback(FallbackRequest),
    /// Analyse this run of this face with these parameters, with the
    /// baseline at the origin.
    Analyze { source: FaceSource, run: GlyphRun, plan: RenderPlan },
    /// The retrieval has ended, with this result.
    Finish(Result<RasterizedGlyph, Error>),
}

/// Whether `action` asks for the analysis of the given glyph.
pub open spec fn asks_analysis(
    action: GlyphAction,
    source: FaceSource,
    glyph_index: u16,
    size: Size,
    plan: RenderPlan,
) -> bool {
    action == (GlyphAction::Analyze { source, run: single_glyph_run(glyph_index, size), plan })
}

/// Whether `glyph` is the glyph of `character` made from `texture`, with
/// three bytes for each of its pixels.
pub open spec fn renders(glyph: RasterizedGlyph, character: char, texture: GlyphTexture) -> bool {
    &&& is_glyph_of(glyph, character, texture)
    &&& glyph.width >= 0
    &&& glyph.height >= 0
    &&& glyph.buffer.bytes().len() == 3 * (glyph.width * glyph.height)
}

/// Whether `result` is what the retrieval of `character` gives when the
/// glyph of index `glyph_index` was analysed with the outcome `analysis`.
///
/// A failed analysis is a platform error. A texture becomes the glyph; the
/// glyph of the missing-glyph index comes as `MissingGlyph`, any other as
/// the result itself.
pub open spec fn is_glyph_result(
    result: Result<RasterizedGlyph, Error>,
    character: char,
    glyph_index: u16,
    analysis: Result<GlyphTexture, AnalysisFailure>,
) -> bool {
    match analysis {
        Err(failure) => result matches Err(Error::PlatformError(message)) && message@
            == failure_message(failure),
        Ok(texture) => if glyph_index == MISSING_GLYPH_INDEX {
            result matches Err(Error::MissingGlyph(placeholder)) && renders(
                placeholder,
                character,
                texture,
            )
        } else {
            result matches Ok(glyph) && renders(glyph, character, texture)
        },
    }
}

/// Whether `action` is the step that follows `progress` while `glyph` is
/// retrieved, where `loaded` is the face that the glyph's font key names, if
/// the rasterizer issued the key, `has_fallback` says whether the host has a
/// fallback sequence, and `plan` holds the rendering parameters in force.
///
/// With a key that was not issued the retrieval fails at once. Else the
/// primary face is asked for the character's glyph. If it has one, that
/// glyph is analysed. If not, and the host has a fallback sequence, the
/// locale is asked for, then the fallback sequence for a substitute, then
/// the substitute for its glyph, and that glyph is analysed; where there is
/// no fallback sequence or no substitute, the primary face's missing glyph is
/// analysed. The analysis ends the retrieval.
pub open spec fn is_glyph_step<F>(
    loaded: Option<Font<F>>,
    has_fallback: bool,
    plan: RenderPlan,
    glyph: GlyphKey,
    progress: GlyphProgress,
    action: GlyphAction,
) -> bool {
    match loaded {
        None => action matches GlyphAction::Finish(Err(Error::UnknownFontKey)),
        Some(font) => match progress {
            GlyphProgress::Requested => {
                action == (GlyphAction::LookupGlyph {
                    source: FaceSource::Primary,
                    character: glyph.character,
                })
            },
            GlyphProgress::PrimaryIndex(lookup) => {
                if resolved_index(lookup) != MISSING_GLYPH_INDEX {
                    asks_analysis(
                        action,
                        FaceSource::Primary,
                        resolved_index(lookup),
                        glyph.size,
                        plan,
                    )
                } else if has_fallback {
                    action is QueryLocale
                } else {
                    asks_analysis(
                        action,
                        FaceSource::Primary,
                        MISSING_GLYPH_INDEX,
                        glyph.size,
                        plan,
                    )
                }
            },
            GlyphProgress::Locale(locale) => {
                if has_fallback {
                    action matches GlyphAction::MapFallback(request) && asks_for(
                        request,
                        glyph.character,
                        locale@,
                        font.family_name@,
                        font.weight,
                        font.style,
                        font.stretch,
                    )
                } else {
                    asks_analysis(
                        action,
                        FaceSource::Primary,
                        MISSING_GLYPH_INDEX,
                        glyph.size,
                        plan,
                    )
                }
            },
            GlyphProgress::Fallback { mapped } => {
                if mapped {
                    action == (GlyphAction::LookupGlyph {
                        source: FaceSource::Fallback,
                        character: glyph.character,
                    })
                } else {
                    asks_analysis(
                        action,
                        FaceSource::Primary,
                        MISSING_GLYPH_INDEX,
                        glyph.size,
                        plan,
                    )
                }
            },
            GlyphProgress::FallbackIndex(lookup) => {
                asks_analysis(
                    action,
                    FaceSource::Fallback,
                    resolved_index(lookup),
                    glyph.size,
                    plan,
                )
            },
            GlyphProgress::Texture { source, glyph_index, analysis } => {
                action matches GlyphAction::Finish(result) && is_glyph_result(
                    result,
                    glyph.character,
                    glyph_index,
                    analysis,
                )
            },
        },
    }
}

impl<F, C, S> DirectWriteRasterizer<F, C, S> {
    /// Takes the next step of retrieving a glyph.
    pub fn get_glyph(&self, glyph: GlyphKey, progress: GlyphProgress) -> (action: GlyphAction)
        ensures
            is_glyph_step(
                self.cache().get(glyph.font_key),
                self.has_fallback(),
                self.rendering_mode().plan(self.grid_fitting()),
                glyph,
                progress,
                action,
            ),
            self.cache().wf(),
            !(glyph.font_key.owner() == self.owner() && glyph.font_key.token()
                < self.cache().issued) ==> action matches GlyphAction::Finish(
                Err(Error::UnknownFontKey),
            ),
    {
        let loaded_font = match self.get_loaded_font(glyph.font_key) {
            Ok(found) => found,
            Err(error) => {
                return GlyphAction::Finish(Err(error));
            },
        };
        match progress {
            GlyphProgress::Requested => GlyphAction::LookupGlyph {
                source: FaceSource::Primary,
                character: glyph.character,
            },
            GlyphProgress::PrimaryIndex(lookup) => {
                let glyph_index = self.get_glyph_index(&lookup);
                if glyph_index == MISSING_GLYPH_INDEX && self.has_fallback() {
                    GlyphAction::QueryLocale
                } else {
                    self.analysis_of(FaceSource::Primary, glyph_index, glyph.size)
                }
            },
            GlyphProgress::Locale(locale) => {
                match self.get_fallback_font(loaded_font, glyph.character, locale) {
                    Some(request) => GlyphAction::MapFallback(request),
                    None => self.analysis_of(FaceSource::Primary, MISSING_GLYPH_INDEX, glyph.size),
                }
            },
            GlyphProgress::Fallback { mapped } => {
                if mapped {
                    GlyphAction::LookupGlyph {
                        source: FaceSource::Fallback,
                        character: glyph.character,
                    }
                } else {
                    self.analysis_of(FaceSource::Primary, MISSING_GLYPH_INDEX, glyph.size)
                }
            },
            GlyphProgress::FallbackIndex(lookup) => {
                let glyph_index = self.get_glyph_index(&lookup);
                self.analysis_of(FaceSource::Fallback, glyph_index, glyph.size)
            },
            GlyphProgress::Texture { source, glyph_index, analysis } => {
                let rasterized_glyph = match self.rasterize_glyph(glyph.character, analysis) {
                    Ok(made) => made,
                    Err(error) => {
                        return GlyphAction::Finish(Err(error));
                    },
                };
                if glyph_index == MISSING_GLYPH_INDEX {
                    GlyphAction::Finish(Err(Error::MissingGlyph(rasterized_glyph)))
                } else {
                    GlyphAction::Finish(Ok(rasterized_glyph))
                }
            },
        }
    }

    fn analysis_of(&self, source: FaceSource, glyph_index: u16, size: Size) -> (action: GlyphAction)
        ensures
            asks_analysis(
                action,
                source,
                glyph_index,
                size,
                self.rendering_mode().plan(self.grid_fitting()),
            ),
    {
        GlyphAction::Analyze {
            source,
            run: GlyphRun {
                glyph_index,
                size,
                advance: 0,
                advance_offset: 0,
                ascender_offset: 0,
                sideways: false,
                bidi_level: 0,
            },
            plan: self.render_plan(),
        }
    }
}

/// What a step asks for, without what it carries.
pub enum GlyphRequest {
    LookupGlyph(FaceSource),
    QueryLocale,
    MapFallback,
    Analyze(FaceSource, u16),
    Finish,
}

/// What the platform has answered last, without what does not bear on the
/// next step.
pub enum GlyphReport {
    Requested,
    PrimaryIndex(u16),
    Locale,
    Fallback(bool),
    FallbackIndex(u16),
    Texture,
}

impl GlyphAction {
    /// What this step asks for.
    pub open spec fn request(self) -> GlyphRequest {
        match self {
            GlyphAction::LookupGlyph { source, .. } => GlyphRequest::LookupGlyph(source),
            GlyphAction::QueryLocale => GlyphRequest::QueryLocale,
            GlyphAction::MapFallback(_) => GlyphRequest::MapFallback,
            GlyphAction::Analyze { source, run, .. } => GlyphRequest::Analyze(
                source,
                run.glyph_index,
            ),
            GlyphAction::Finish(_) => GlyphRequest::Finish,
        }
    }
}

impl GlyphProgress {
    /// What was answered last.
    pub open spec fn report(self) -> GlyphReport {
        match self {
            GlyphProgress::Requested => GlyphReport::Requested,
            GlyphProgress::PrimaryIndex(lookup) => GlyphReport::PrimaryIndex(
                resolved_index(lookup),
            ),
            GlyphProgress::Locale(_) => GlyphReport::Locale,
            GlyphProgress::Fallback { mapped } => GlyphReport::Fallback(mapped),
            GlyphProgress::FallbackIndex(lookup) => GlyphReport::FallbackIndex(
                resolved_index(lookup),
            ),
            GlyphProgress::Texture { .. } => GlyphReport::Texture,
        }
    }
}

/// What is asked for after `report`, where `known` says whether the
/// rasterizer issued the font key and `has_fallback` whether the host has a
/// fallback sequence.
pub open spec fn next_request(
    known: bool,
    has_fallback: bool,
    report: GlyphReport,
) -> GlyphRequest {
    if !known {
        GlyphRequest::Finish
    } else {
        match report {
            GlyphReport::Requested => GlyphRequest::LookupGlyph(FaceSource::Primary),
            GlyphReport::PrimaryIndex(glyph_index) => if glyph_index != MISSING_GLYPH_INDEX {
                GlyphRequest::Analyze(FaceSource::Primary, glyph_index)
            } else if has_fallback {
                GlyphRequest::QueryLocale
            } else {
                GlyphRequest::Analyze(FaceSource::Primary, MISSING_GLYPH_INDEX)
            },
            GlyphReport::Locale => if has_fallback {
                GlyphRequest::MapFallback
            } else {
                GlyphRequest::Analyze(FaceSource::Primary, MISSING_GLYPH_INDEX)
            },
            GlyphReport::Fallback(mapped) => if mapped {
                GlyphRequest::LookupGlyph(FaceSource::Fallback)
            } else {
                GlyphRequest::Analyze(FaceSource::Primary, MISSING_GLYPH_INDEX)
            },
            GlyphReport::FallbackIndex(glyph_index) => GlyphRequest::Analyze(
                FaceSource::Fallback,
                glyph_index,
            ),
            GlyphReport::Texture => GlyphRequest::Finish,
        }
    }
}

/// How the platform answers during one retrieval.
pub struct GlyphAnswers {
    /// The glyph index that the primary face gives for the character.
    pub primary: u16,
    /// Whether the fallback sequence names a substitute.
    pub mapped: bool,
    /// The glyph index that the substitute gives for the character.
    pub substitute: u16,
}

/// What is reported after `request` was carried out.
pub open spec fn report_of(request: GlyphRequest, answers: GlyphAnswers) -> GlyphReport {
    match request {
        GlyphRequest::LookupGlyph(FaceSource::Primary) => GlyphReport::PrimaryIndex(
            answers.primary,
        ),
        GlyphRequest::QueryLocale => GlyphReport::Locale,
        GlyphRequest::MapFallback => GlyphReport::Fallback(answers.mapped),
        GlyphRequest::LookupGlyph(FaceSource::Fallback) => GlyphReport::FallbackIndex(
            answers.substitute,
        ),
        GlyphRequest::Analyze(_, _) => GlyphReport::Texture,
        GlyphRequest::Finish => GlyphReport::Texture,
    }
}

/// The requests of a retrieval from `report` on, up to the one that ends it,
/// or as many as `limit` allows.
pub open spec fn requests_from(
    known: bool,
    has_fallback: bool,
    answers: GlyphAnswers,
    report: GlyphReport,
    limit: nat,
) -> Seq<GlyphRequest>
    decreases limit,
{
    let request = next_request(known, has_fallback, report);
    if request is Finish || limit == 0 {
        seq![request]
    } else {
        seq![request] + requests_from(
            known,
            has_fallback,
            answers,
            report_of(request, answers),
            (limit - 1) as nat,
        )
    }
}

/// The requests of a whole retrieval, in order.
pub open spec fn retrieval(known: bool, has_fallback: bool, answers: GlyphAnswers) -> Seq<
    GlyphRequest,
> {
    requests_from(known, has_fallback, answers, GlyphReport::Requested, 8)
}

/// The face and glyph index that a retrieval has analysed: the primary
/// face's glyph if it has one, else the substitute's glyph if there is a
/// substitute, else the primary face's missing glyph.
pub open spec fn analysed(has_fallback: bool, answers: GlyphAnswers) -> (FaceSource, u16) {
    if answers.primary != MISSING_GLYPH_INDEX {
        (FaceSource::Primary, answers.primary)
    } else if has_fallback && answers.mapped {
        (FaceSource::Fallback, answers.substitute)
    } else {
        (FaceSource::Primary, MISSING_GLYPH_INDEX)
    }
}

/// Every step of `get_glyph` asks for what `next_request` says.
pub proof fn lemma_step_asks_next_request<F>(
    loaded: Option<Font<F>>,
    has_fallback: bool,
    plan: RenderPlan,
    glyph: GlyphKey,
    progress: GlyphProgress,
    action: GlyphAction,
)
    requires
        is_glyph_step(loaded, has_fallback, plan, glyph, progress, action),
    ensures
        action.request() == next_request(loaded is Some, has_fallback, progress.report()),
{
}

/// The course of a retrieval. With an unknown key nothing is asked. With a
/// glyph in the primary face, that face is asked and its glyph analysed.
/// Without one, the fallback sequence is consulted if the host has one, and
/// the substitute's glyph is analysed if a substitute was named; else the
/// primary face's missing glyph is analysed. Every retrieval ends.
pub proof fn lemma_retrieval_course(known: bool, has_fallback: bool, answers: GlyphAnswers)
    ensures
        retrieval(known, has_fallback, answers).last() is Finish,
        !known ==> retrieval(known, has_fallback, answers) == seq![GlyphRequest::Finish],
        known && !(answers.primary == MISSING_GLYPH_INDEX && has_fallback) ==> retrieval(
            known,
            has_fallback,
            answers,
        ) == seq![
            GlyphRequest::LookupGlyph(FaceSource::Primary),
            GlyphRequest::Analyze(FaceSource::Primary, answers.primary),
            GlyphRequest::Finish,
        ],
        known && answers.primary == MISSING_GLYPH_INDEX && has_fallback && !answers.mapped
            ==> retrieval(known, has_fallback, answers) == seq![
            GlyphRequest::LookupGlyph(FaceSource::Primary),
            GlyphRequest::QueryLocale,
            GlyphRequest::MapFallback,
            GlyphRequest::Analyze(FaceSource::Primary, MISSING_GLYPH_INDEX),
            GlyphRequest::Finish,
        ],
        known && answers.primary == MISSING_GLYPH_INDEX && has_fallback && answers.mapped
            ==> retrieval(known, has_fallback, answers) == seq![
            GlyphRequest::LookupGlyph(FaceSource::Primary),
            GlyphRequest::QueryLocale,
            GlyphRequest::MapFallback,
            GlyphRequest::LookupGlyph(FaceSource::Fallback),
            GlyphRequest::Analyze(FaceSource::Fallback, answers.substitute),
            GlyphRequest::Finish,
        ],
        known ==> retrieval(known, has_fallback, answers)[retrieval(
            known,
            has_fallback,
            answers,
        ).len() - 2] == GlyphRequest::Analyze(
            analysed(has_fallback, answers).0,
            analysed(has_fallback, answers).1,
        ),
{
    reveal_with_fuel(requests_from, 8);
    let run = retrieval(known, has_fallback, answers);
    if !known {
        assert(run =~= seq![GlyphRequest::Finish]);
    } else if !(answers.primary == MISSING_GLYPH_INDEX && has_fallback) {
        assert(run =~= seq![
            GlyphRequest::LookupGlyph(FaceSource::Primary),
            GlyphRequest::Analyze(FaceSource::Primary, answers.primary),
            GlyphRequest::Finish,
        ]);
    } else if !answers.mapped {
        assert(run =~= seq![
            GlyphRequest::LookupGlyph(FaceSource::Primary),
            GlyphRequest::QueryLocale,
            GlyphRequest::MapFallback,
            GlyphRequest::Analyze(FaceSource::Primary, MISSING_GLYPH_INDEX),
            GlyphRequest::Finish,
        ]);
    } else {
        assert(run =~= seq![
            GlyphRequest::LookupGlyph(FaceSource::Primary),
            GlyphRequest::QueryLocale,
            GlyphRequest::MapFallback,
            GlyphRequest::LookupGlyph(FaceSource::Fallback),
            GlyphRequest::Analyze(FaceSource::Fallback, answers.substitute),
            GlyphRequest::Finish,
        ]);
    }
}

/// A character that the primary face lacks has the fallback sequence
/// consulted exactly once, where the host has one; in every other retrieval
/// the fallback sequence is not consulted at all.
pub proof fn lemma_fallback_consulted_once(known: bool, has_fallback: bool, answers: GlyphAnswers)
    ensures
        known && answers.primary == MISSING_GLYPH_INDEX && has_fallback ==> {
            &&& retrieval(known, has_fallback, answers).len() > 2
            &&& retrieval(known, has_fallback, answers)[2] is MapFallback
            &&& forall|i: int|
                0 <= i < retrieval(known, has_fallback, answers).len() && i != 2 ==> !(retrieval(
                    known,
                    has_fallback,
                    answers,
                )[i] is MapFallback)
        },
        !(known && answers.primary == MISSING_GLYPH_INDEX && has_fallback) ==> forall|i: int|
            0 <= i < retrieval(known, has_fallback, answers).len() ==> !(retrieval(
                known,
                has_fallback,
                answers,
            )[i] is MapFallback),
{
    lemma_retrieval_course(known, has_fallback, answers);
}

/// What becomes of a character that the primary face lacks, once the
/// analysis has delivered a texture: either the glyph comes as missing, and
/// then there was no fallback sequence, or no substitute, or the substitute
/// lacks the character too; or the glyph is the substitute's.
pub proof fn lemma_missing_in_primary(
    has_fallback: bool,
    answers: GlyphAnswers,
    character: char,
    texture: GlyphTexture,
    result: Result<RasterizedGlyph, Error>,
)
    requires
        answers.primary == MISSING_GLYPH_INDEX,
        is_glyph_result(result, character, analysed(has_fallback, answers).1, Ok(texture)),
    ensures
        result matches Err(Error::MissingGlyph(_)) <==> !has_fallback || !answers.mapped
            || answers.substitute == MISSING_GLYPH_INDEX,
        result is Ok <==> has_fallback && answers.mapped && answers.substitute
            != MISSING_GLYPH_INDEX,
        result is Ok ==> analysed(has_fallback, answers).0 == FaceSource::Fallback,
        result is Ok || result matches Err(Error::MissingGlyph(_)),
{
}

/// A retrieval fails with a platform error exactly when the analysis
/// failed: a missing glyph alone never makes one.
pub proof fn lemma_platform_error_only_from_analysis(
    result: Result<RasterizedGlyph, Error>,
    character: char,
    glyph_index: u16,
    analysis: Result<GlyphTexture, AnalysisFailure>,
)
    requires
        is_glyph_result(result, character, glyph_index, analysis),
    ensures
        result matches Err(Error::PlatformError(_)) <==> analysis is Err,
        result matches Err(Error::MissingGlyph(_)) <==> analysis is Ok && glyph_index
            == MISSING_GLYPH_INDEX,
        result is Ok <==> analysis is Ok && glyph_index != MISSING_GLYPH_INDEX,
{
}

/// Retrieving with a key that the rasterizer did not issue fails with
/// `UnknownFontKey`, whatever the platform has answered.
pub proof fn lemma_unknown_key_is_not_retrieved<F>(
    has_fallback: bool,
    plan: RenderPlan,
    glyph: GlyphKey,
    progress: GlyphProgress,
    action: GlyphAction,
)
    requires
        is_glyph_step(None::<Font<F>>, has_fallback, plan, glyph, progress, action),
    ensures
        action matches GlyphAction::Finish(Err(Error::UnknownFontKey)),
{
}

/// Retrieving with a key that another rasterizer issued fails with
/// `UnknownFontKey`, whatever the key's position and whatever the platform
/// has answered.
pub proof fn lemma_foreign_key_is_not_retrieved<F>(
    cache: CacheModel<F>,
    has_fallback: bool,
    plan: RenderPlan,
    glyph: GlyphKey,
    progress: GlyphProgress,
    action: GlyphAction,
)
    requires
        cache.wf(),
        glyph.font_key.owner() != cache.owner,
        is_glyph_step(cache.get(glyph.font_key), has_fallback, plan, glyph, progress, action),
    ensures
        action matches GlyphAction::Finish(Err(Error::UnknownFontKey)),
{
}

} // verus!
