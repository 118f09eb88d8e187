//! The rasterizer: the font cache, the rendering settings, and the decisions
//! of loading, measuring and glyph retrieval.
//!
//! The rasterizer never calls the platform. Each of its three operations is
//! a function from what the platform has answered so far to the next thing to
//! ask, or to the result; the caller asks and reports back.

use crate::cache::{CacheModel, FontCache};
use crate::error::{failure_message, AnalysisFailure, Error};
use crate::face::Font;
use crate::fallback::{asks_for, fallback_request, FallbackRequest};
use crate::glyph::{assemble_glyph, is_glyph_of, GlyphTexture, RasterizedGlyph};
use crate::mode::{RenderPlan, RenderingMode};
use crate::types::{FontKey, GlyphKey};
use vstd::prelude::*;

verus! {

/// Index of the glyph that a face draws for characters it does not have.
pub const MISSING_GLYPH_INDEX: u16 = 0;

/// The glyph index to use, from what the platform answered when asked for
/// the index of one character: the first index it gave, or the missing glyph
/// where it failed or gave none.
pub open spec fn resolved_index(lookup: Result<Vec<u16>, i32>) -> u16 {
    match lookup {
        Ok(indices) => if indices@.len() > 0 {
            indices@[0]
        } else {
            MISSING_GLYPH_INDEX
        },
        Err(_) => MISSING_GLYPH_INDEX,
    }
}

/// Font cache and rendering settings of a DirectWrite text renderer.
///
/// `F` is the platform's handle to a face, `C` its font collection and `S`
/// its fallback sequence. The rasterizer stores them and hands them back.
pub struct DirectWriteRasterizer<F, C, S> {
    pub(crate) fonts: FontCache<F>,
    pub(crate) available_fonts: C,
    pub(crate) fallback_sequence: Option<S>,
    pub(crate) rendering_mode: RenderingMode,
    pub(crate) grid_fitting: bool,
}

impl<F, C, S> DirectWriteRasterizer<F, C, S> {
    /// What the font cache holds.
    pub closed spec fn cache(&self) -> CacheModel<F> {
        self.fonts@
    }

    /// The number by which the keys of this rasterizer are told from those
    /// of every other.
    pub open spec fn spec_owner(&self) -> u64 {
        self.cache().owner
    }

    /// The rendering mode in force.
    pub closed spec fn spec_rendering_mode(&self) -> RenderingMode {
        self.rendering_mode
    }

    /// Whether outlines snap to the pixel grid.
    pub closed spec fn spec_grid_fitting(&self) -> bool {
        self.grid_fitting
    }

    /// Whether the host has a fallback sequence.
    pub closed spec fn spec_has_fallback(&self) -> bool {
        self.fallback_sequence is Some
    }

    /// The font collection that fonts are matched in.
    pub closed spec fn spec_available_fonts(&self) -> C {
        self.available_fonts
    }

    /// The fallback sequence of the host, if it has one.
    pub closed spec fn spec_fallback_sequence(&self) -> Option<S> {
        self.fallback_sequence
    }

    /// What the accessors say, in terms of the fields.
    pub(crate) proof fn lemma_fields(&self)
        ensures
            self.cache() == self.fonts@,
            self.rendering_mode() == self.rendering_mode,
            self.grid_fitting() == self.grid_fitting,
            self.has_fallback() == self.fallback_sequence is Some,
            self.spec_available_fonts() == self.available_fonts,
            self.spec_fallback_sequence() == self.fallback_sequence,
    {
    }

    /// Whether `other` has the same settings and platform handles as `self`.
    pub open spec fn same_settings(&self, other: &Self) -> bool {
        &&& self.rendering_mode() == other.rendering_mode()
        &&& self.grid_fitting() == other.grid_fitting()
        &&& self.has_fallback() == other.has_fallback()
        &&& self.spec_available_fonts() == other.spec_available_fonts()
        &&& self.spec_fallback_sequence() == other.spec_fallback_sequence()
    }

    /// A rasterizer with an empty cache for the given font collection and
    /// fallback sequence, in subpixel mode and without grid fitting.
    ///
    /// Every key that the rasterizer issues carries `owner`, and the
    /// rasterizer knows no key that carries another number. It is for the
    /// caller to give every rasterizer of a process a number of its own: then
    /// no key is issued twice in the process, and a key handed to a
    /// rasterizer that did not issue it is unknown there.
    pub fn new(available_fonts: C, fallback_sequence: Option<S>, owner: u64) -> (rasterizer:
        Result<DirectWriteRasterizer<F, C, S>, Error>)
        ensures
            rasterizer matches Ok(made) && {
                &&& made.cache() == CacheModel::<F>::empty(owner)
                &&& made.owner() == owner
                &&& made.cache().wf()
                &&& made.rendering_mode() == RenderingMode::Subpixel
                &&& !made.grid_fitting()
                &&& made.has_fallback() == fallback_sequence is Some
                &&& made.spec_available_fonts() == available_fonts
                &&& made.spec_fallback_sequence() == fallback_sequence
            },
    {
        Ok(
            DirectWriteRasterizer {
                fonts: FontCache::new(owner),
                available_fonts,
                fallback_sequence,
                rendering_mode: RenderingMode::default(),
                grid_fitting: false,
            },
        )
    }

    /// Sets the rendering mode of every glyph retrieved from now on.
    pub fn set_rendering_mode(&mut self, mode: RenderingMode)
        ensures
            final(self).rendering_mode() == mode,
            final(self).cache() == old(self).cache(),
            final(self).grid_fitting() == old(self).grid_fitting(),
            final(self).has_fallback() == old(self).has_fallback(),
            final(self).spec_available_fonts() == old(self).spec_available_fonts(),
            final(self).spec_fallback_sequence() == old(self).spec_fallback_sequence(),
    {
        self.rendering_mode = mode;
    }

    /// Sets whether the outlines of every glyph retrieved from now on snap
    /// to the pixel grid.
    pub fn set_grid_fitting(&mut self, enabled: bool)
        ensures
            final(self).grid_fitting() == enabled,
            final(self).cache() == old(self).cache(),
            final(self).rendering_mode() == old(self).rendering_mode(),
            final(self).has_fallback() == old(self).has_fallback(),
            final(self).spec_available_fonts() == old(self).spec_available_fonts(),
            final(self).spec_fallback_sequence() == old(self).spec_fallback_sequence(),
    {
        self.grid_fitting = enabled;
    }

    /// The number by which the keys of this rasterizer are told from those
    /// of every other.
    #[verifier::when_used_as_spec(spec_owner)]
    pub fn owner(&self) -> (owner: u64)
        ensures
            owner == self.owner(),
    {
        self.fonts.owner()
    }

    /// The rendering mode in force.
    #[verifier::when_used_as_spec(spec_rendering_mode)]
    pub fn rendering_mode(&self) -> (mode: RenderingMode)
        ensures
            mode == self.rendering_mode(),
    {
        self.rendering_mode
    }

    /// Whether outlines snap to the pixel grid.
    #[verifier::when_used_as_spec(spec_grid_fitting)]
    pub fn grid_fitting(&self) -> (enabled: bool)
        ensures
            enabled == self.grid_fitting(),
    {
        self.grid_fitting
    }

    /// Whether the host has a fallback sequence.
    #[verifier::when_used_as_spec(spec_has_fallback)]
    pub fn has_fallback(&self) -> (available: bool)
        ensures
            available == self.has_fallback(),
    {
        self.fallback_sequence.is_some()
    }

    /// The font collection that fonts are matched in.
    pub fn available_fonts(&self) -> (collection: &C)
        ensures
            *collection == self.spec_available_fonts(),
    {
        &self.available_fonts
    }

    /// The fallback sequence of the host, if it has one.
    pub fn fallback_sequence(&self) -> (sequence: Option<&S>)
        ensures
            sequence is Some == self.has_fallback(),
            sequence matches Some(held) ==> self.spec_fallback_sequence() == Some(*held),
    {
        self.fallback_sequence.as_ref()
    }

    /// The platform parameters to render glyphs with under the settings in
    /// force.
    pub fn render_plan(&self) -> (plan: RenderPlan)
        ensures
            plan == self.rendering_mode().plan(self.grid_fitting()),
    {
        self.rendering_mode.render_plan(self.grid_fitting)
    }

    /// The face that a key names. Fails with `UnknownFontKey` exactly when
    /// this rasterizer did not issue the key: when the key carries the
    /// number of another rasterizer, or a position that this one has not
    /// reached.
    pub fn get_loaded_font(&self, font_key: FontKey) -> (font: Result<&Font<F>, Error>)
        ensures
            self.cache().wf(),
            match self.cache().get(font_key) {
                Some(loaded) => font matches Ok(found) && *found == loaded,
                None => font matches Err(Error::UnknownFontKey),
            },
            font is Ok <==> font_key.owner() == self.owner() && font_key.token()
                < self.cache().issued,
    {
        match self.fonts.get(font_key) {
            Some(found) => Ok(found),
            None => Err(Error::UnknownFontKey),
        }
    }

    /// The glyph index to use, from what the platform answered when asked
    /// for the index of one character.
    pub fn get_glyph_index(&self, lookup: &Result<Vec<u16>, i32>) -> (glyph_index: u16)
        ensures
            glyph_index == resolved_index(*lookup),
    {
        match lookup {
            Ok(indices) => {
                if indices.len() > 0 {
                    indices[0]
                } else {
                    MISSING_GLYPH_INDEX
                }
            },
            Err(_) => MISSING_GLYPH_INDEX,
        }
    }

    /// The question to put to the host's fallback sequence to find a
    /// substitute for `character` that continues `loaded_font`, for a user of
    /// the given locale. There is none exactly when the host has no fallback
    /// sequence.
    pub fn get_fallback_font(
        &self,
        loaded_font: &Font<F>,
        character: char,
        locale: String,
    ) -> (request: Option<FallbackRequest>)
        ensures
            request is Some == self.has_fallback(),
            request matches Some(asked) ==> asks_for(
                asked,
                character,
                locale@,
                loaded_font.family_name@,
                loaded_font.weight,
                loaded_font.style,
                loaded_font.stretch,
            ),
    {
        if self.fallback_sequence.is_none() {
            return None;
        }
        Some(fallback_request(loaded_font, character, locale))
    }

    /// The glyph for `character` from what the platform's glyph analysis
    /// delivered. Fails with `PlatformError` exactly when the analysis failed.
    pub fn rasterize_glyph(
        &self,
        character: char,
        analysis: Result<GlyphTexture, AnalysisFailure>,
    ) -> (glyph: Result<RasterizedGlyph, Error>)
        ensures
            match analysis {
                Ok(texture) => glyph matches Ok(made) && {
                    &&& is_glyph_of(made, character, texture)
                    &&& made.width >= 0
                    &&& made.height >= 0
                    &&& made.buffer.bytes().len() == 3 * (made.width * made.height)
                },
                Err(failure) => glyph matches Err(Error::PlatformError(message)) && message@
                    == failure_message(failure),
            },
    {
        match analysis {
            Ok(texture) => Ok(assemble_glyph(character, texture)),
            Err(failure) => Err(Error::from_failure(failure)),
        }
    }

    /// The kerning between two glyphs, which is always none.
    pub fn kerning(&mut self, left: GlyphKey, right: GlyphKey) -> (adjustment: (i32, i32))
        ensures
            adjustment == (0i32, 0i32),
            final(self).cache() == old(self).cache(),
            final(self).same_settings(old(self)),
    {
        (0, 0)
    }
}

} // verus!
