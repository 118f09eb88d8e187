//! Rasterized glyphs and their assembly from the platform's textures.

use crate::error::AnalysisFailure;
use crate::mode::{RenderingMode, TextureLayout};
use vstd::prelude::*;

verus! {

/// The rectangle of pixels a glyph covers, relative to its origin, with the
/// vertical axis growing downwards.
#[derive(Clone, Copy, Debug, PartialEq, Eq, Structural)]
pub struct GlyphBounds {
    pub left: i32,
    pub top: i32,
    pub right: i32,
    pub bottom: i32,
}

impl GlyphBounds {
    /// Number of pixel columns.
    pub open spec fn width(self) -> int {
        self.right - self.left
    }

    /// Number of pixel rows.
    pub open spec fn height(self) -> int {
        self.bottom - self.top
    }

    /// Number of pixels.
    pub open spec fn pixels(self) -> int {
        self.width() * self.height()
    }

    /// Whether the rectangle is the right way round and a glyph with these
    /// bounds can be described in 32-bit coordinates.
    pub open spec fn spec_is_valid(&self) -> bool {
        &&& self.left <= self.right
        &&& self.top <= self.bottom
        &&& self.width() <= i32::MAX
        &&& self.height() <= i32::MAX
        &&& self.top > i32::MIN
    }

    /// Whether the rectangle is the right way round and a glyph with these
    /// bounds can be described in 32-bit coordinates.
    #[verifier::when_used_as_spec(spec_is_valid)]
    pub fn is_valid(&self) -> (valid: bool)
        ensures
            valid == self.is_valid(),
    {
        let width: i64 = self.right as i64 - self.left as i64;
        let height: i64 = self.bottom as i64 - self.top as i64;
        0 <= width && width <= i32::MAX as i64 && 0 <= height && height <= i32::MAX as i64
            && self.top > i32::MIN
    }

    /// Number of samples in a texture of this rectangle in the given layout.
    pub open spec fn sample_count(self, layout: TextureLayout) -> int {
        self.pixels() * layout.channels()
    }
}

/// What the platform's glyph analysis delivers: the rectangle the glyph
/// covers and its coverage samples, row by row.
///
/// A texture always has valid bounds and holds exactly the samples of its
/// rectangle in its layout.
#[derive(Debug)]
pub struct GlyphTexture {
    bounds: GlyphBounds,
    layout: TextureLayout,
    samples: Vec<u8>,
}

impl GlyphTexture {
    #[verifier::type_invariant]
    spec fn filled(&self) -> bool {
        &&& self.bounds.is_valid()
        &&& self.samples@.len() == self.bounds.sample_count(self.layout)
    }

    /// The rectangle the glyph covers.
    pub closed spec fn spec_bounds(&self) -> GlyphBounds {
        self.bounds
    }

    /// Number of samples per pixel.
    pub closed spec fn spec_layout(&self) -> TextureLayout {
        self.layout
    }

    /// The coverage samples, row by row.
    pub closed spec fn samples(&self) -> Seq<u8> {
        self.samples@
    }

    /// The texture of the given rectangle, layout and samples, if the
    /// rectangle is valid and the samples are exactly those of the rectangle.
    pub fn new(bounds: GlyphBounds, layout: TextureLayout, samples: Vec<u8>) -> (texture: Option<
        GlyphTexture,
    >)
        ensures
            texture is Some <==> bounds.is_valid() && samples@.len() == bounds.sample_count(layout),
            texture matches Some(made) ==> {
                &&& made.bounds() == bounds
                &&& made.layout() == layout
                &&& made.samples() == samples@
            },
    {
        if !bounds.is_valid() {
            return None;
        }
        let width: u64 = (bounds.right as i64 - bounds.left as i64) as u64;
        let height: u64 = (bounds.bottom as i64 - bounds.top as i64) as u64;
        let channels: u64 = layout.channel_count() as u64;
        assert(width * height <= 0x7FFF_FFFF * 0x7FFF_FFFF) by (nonlinear_arith)
            requires
                0 <= width <= 0x7FFF_FFFF,
                0 <= height <= 0x7FFF_FFFF,
        ;
        let pixels: u64 = width * height;
        assert(pixels * channels <= 0x7FFF_FFFF * 0x7FFF_FFFF * 3) by (nonlinear_arith)
            requires
                0 <= pixels <= 0x7FFF_FFFF * 0x7FFF_FFFF,
                0 <= channels <= 3,
        ;
        if samples.len() as u64 != pixels * channels {
            return None;
        }
        Some(GlyphTexture { bounds, layout, samples })
    }

    /// The texture that a glyph analysis delivered, or the failure of the
    /// analysis where what it delivered is no texture.
    pub fn from_analysis(bounds: GlyphBounds, layout: TextureLayout, samples: Vec<u8>) -> (texture:
        Result<GlyphTexture, AnalysisFailure>)
        ensures
            texture is Ok <==> bounds.is_valid() && samples@.len() == bounds.sample_count(layout),
            texture matches Ok(made) ==> {
                &&& made.bounds() == bounds
                &&& made.layout() == layout
                &&& made.samples() == samples@
            },
            texture matches Err(failure) ==> failure == AnalysisFailure::InvalidTexture,
    {
        match GlyphTexture::new(bounds, layout, samples) {
            Some(made) => Ok(made),
            None => Err(AnalysisFailure::InvalidTexture),
        }
    }

    /// The rectangle the glyph covers.
    #[verifier::when_used_as_spec(spec_bounds)]
    pub fn bounds(&self) -> (bounds: GlyphBounds)
        ensures
            bounds == self.bounds(),
            bounds.is_valid(),
    {
        proof {
            use_type_invariant(self);
        }
        self.bounds
    }

    /// Number of samples per pixel.
    #[verifier::when_used_as_spec(spec_layout)]
    pub fn layout(&self) -> (layout: TextureLayout)
        ensures
            layout == self.layout(),
    {
        self.layout
    }

    /// Number of samples.
    pub fn sample_count(&self) -> (count: usize)
        ensures
            count == self.samples().len(),
            count == self.bounds().sample_count(self.layout()),
    {
        proof {
            use_type_invariant(self);
        }
        self.samples.len()
    }
}

/// Pixel data of a rasterized glyph.
#[derive(Debug, PartialEq, Eq)]
pub enum BitmapBuffer {
    /// Three bytes per pixel: red, green, blue coverage.
    Rgb(Vec<u8>),
    /// Four bytes per pixel: premultiplied colour and alpha.
    Rgba(Vec<u8>),
}

impl BitmapBuffer {
    /// The bytes of the buffer.
    pub open spec fn bytes(self) -> Seq<u8> {
        match self {
            BitmapBuffer::Rgb(bytes) => bytes@,
            BitmapBuffer::Rgba(bytes) => bytes@,
        }
    }
}

/// One glyph, rasterized.
#[derive(Debug, PartialEq, Eq)]
pub struct RasterizedGlyph {
    pub character: char,
    pub width: i32,
    pub height: i32,
    /// Distance from the origin up to the top row.
    pub top: i32,
    /// Distance from the origin right to the first column.
    pub left: i32,
    pub advance: (i32, i32),
    pub buffer: BitmapBuffer,
}

/// Every sample repeated three times, so that one coverage value becomes an
/// RGB pixel.
pub open spec fn expand_alpha(samples: Seq<u8>) -> Seq<u8> {
    Seq::new(3 * samples.len(), |i: int| samples[i / 3])
}

/// The RGB bytes of a glyph whose texture holds `samples`: of three-channel
/// samples the samples themselves, of single-channel samples each three times.
pub open spec fn rgb_bytes(layout: TextureLayout, samples: Seq<u8>) -> Seq<u8> {
    match layout {
        TextureLayout::Subpixel => samples,
        TextureLayout::Alpha => expand_alpha(samples),
    }
}

/// Turns single-channel coverage into RGB by repeating every sample.
pub fn expand_alpha_to_rgb(samples: &Vec<u8>) -> (rgb: Vec<u8>)
    ensures
        rgb@ == expand_alpha(samples@),
{
    let mut rgb: Vec<u8> = Vec::new();
    let mut i: usize = 0;
    while i < samples.len()
        invariant
            i <= samples.len(),
            rgb@.len() == 3 * i,
            forall|j: int| 0 <= j < rgb@.len() ==> rgb@[j] == samples@[j / 3],
        decreases samples.len() - i,
    {
        let alpha = samples[i];
        rgb.push(alpha);
        rgb.push(alpha);
        rgb.push(alpha);
        i = i + 1;
    }
    assert(rgb@ =~= expand_alpha(samples@));
    rgb
}

/// Whether `glyph` is the glyph for `character` made from `texture`: it has
/// the size of the texture's rectangle, `top` counts upwards from the origin,
/// the advance is zero, and the buffer holds the texture's samples as RGB.
pub open spec fn is_glyph_of(
    glyph: RasterizedGlyph,
    character: char,
    texture: GlyphTexture,
) -> bool {
    &&& glyph.character == character
    &&& glyph.width == texture.bounds().width()
    &&& glyph.height == texture.bounds().height()
    &&& glyph.top == -texture.bounds().top
    &&& glyph.left == texture.bounds().left
    &&& glyph.advance == (0i32, 0i32)
    &&& glyph.buffer is Rgb
    &&& glyph.buffer.bytes() == rgb_bytes(texture.layout(), texture.samples())
}

/// Builds the glyph for `character` from the texture the platform delivered.
///
/// The glyph has the size of the texture's rectangle, `top` counts upwards
/// from the origin, and the advance is zero: advances come from the metrics.
/// The buffer holds three bytes for every pixel.
pub fn assemble_glyph(character: char, texture: GlyphTexture) -> (glyph: RasterizedGlyph)
    ensures
        is_glyph_of(glyph, character, texture),
        glyph.width >= 0,
        glyph.height >= 0,
        glyph.buffer.bytes().len() == 3 * (glyph.width * glyph.height),
{
    proof {
        use_type_invariant(&texture);
    }
    let bounds = texture.bounds;
    let ghost pixels = bounds.pixels();
    let ghost count = texture.samples@.len() as int;
    let buffer = match texture.layout {
        TextureLayout::Subpixel => {
            assert(count == 3 * pixels) by (nonlinear_arith)
                requires
                    count == pixels * 3,
            ;
            BitmapBuffer::Rgb(texture.samples)
        },
        TextureLayout::Alpha => {
            assert(count == pixels) by (nonlinear_arith)
                requires
                    count == pixels * 1,
            ;
            BitmapBuffer::Rgb(expand_alpha_to_rgb(&texture.samples))
        },
    };
    RasterizedGlyph {
        character,
        width: bounds.right - bounds.left,
        height: bounds.bottom - bounds.top,
        top: -bounds.top,
        left: bounds.left,
        advance: (0, 0),
        buffer,
    }
}

/// Expanding coverage triples the number of samples and keeps their order.
pub proof fn lemma_expand_alpha(samples: Seq<u8>)
    ensures
        expand_alpha(samples).len() == 3 * samples.len(),
        forall|i: int|
            0 <= i < samples.len() ==> {
                &&& expand_alpha(samples)[3 * i] == samples[i]
                &&& expand_alpha(samples)[3 * i + 1] == samples[i]
                &&& expand_alpha(samples)[3 * i + 2] == samples[i]
            },
{
}

/// For one rectangle, the texture of subpixel mode holds three times the
/// samples of the texture of grayscale mode, and so does the glyph made from
/// it; the glyphs of both modes hold three bytes per pixel.
pub proof fn lemma_subpixel_triples_samples(
    bounds: GlyphBounds,
    grayscale: Seq<u8>,
    subpixel: Seq<u8>,
)
    requires
        grayscale.len() == bounds.sample_count(RenderingMode::Grayscale.texture_layout()),
        subpixel.len() == bounds.sample_count(RenderingMode::Subpixel.texture_layout()),
    ensures
        subpixel.len() == 3 * grayscale.len(),
        rgb_bytes(RenderingMode::Subpixel.texture_layout(), subpixel).len() == 3
            * grayscale.len(),
        rgb_bytes(RenderingMode::Subpixel.texture_layout(), subpixel).len() == 3 * bounds.pixels(),
        rgb_bytes(RenderingMode::Grayscale.texture_layout(), grayscale).len() == 3
            * bounds.pixels(),
{
    let pixels = bounds.pixels();
    assert(pixels * 3 == 3 * (pixels * 1)) by (nonlinear_arith);
}

/// A glyph without ink has no bytes: where the rectangle is empty, so are the
/// texture that fills it and the glyph's buffer.
pub proof fn lemma_empty_bounds_empty_buffer(
    layout: TextureLayout,
    bounds: GlyphBounds,
    samples: Seq<u8>,
)
    requires
        bounds.is_valid(),
        bounds.width() == 0 || bounds.height() == 0,
        samples.len() == bounds.sample_count(layout),
    ensures
        samples.len() == 0,
        rgb_bytes(layout, samples).len() == 0,
{
    assert(bounds.pixels() == 0) by (nonlinear_arith)
        requires
            bounds.width() == 0 || bounds.height() == 0,
            bounds.pixels() == bounds.width() * bounds.height(),
    ;
}

} // verus!
