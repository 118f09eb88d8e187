//! Rendering modes and the platform parameters that follow from them.

use vstd::prelude::*;

verus! {

/// How glyph outlines are turned into coverage samples.
#[derive(Clone, Copy, Debug, PartialEq, Eq, Structural)]
pub enum RenderingMode {
    /// Every pixel is either covered or not.
    Aliased,
    /// One coverage value per pixel.
    Grayscale,
    /// One coverage value per colour stripe of a pixel.
    Subpixel,
}

impl Default for RenderingMode {
    fn default() -> (mode: RenderingMode)
        ensures
            mode == RenderingMode::Subpixel,
    {
        RenderingMode::Subpixel
    }
}

/// The algorithm by which DirectWrite renders an outline.
#[derive(Clone, Copy, Debug, PartialEq, Eq, Structural)]
pub enum RenderStrategy {
    Aliased,
    NaturalSymmetric,
}

/// How DirectWrite measures glyphs while rendering.
#[derive(Clone, Copy, Debug, PartialEq, Eq, Structural)]
pub enum MeasuringMode {
    GdiClassic,
    Natural,
}

/// The antialiasing DirectWrite applies.
#[derive(Clone, Copy, Debug, PartialEq, Eq, Structural)]
pub enum AntialiasMode {
    Grayscale,
    ClearType,
}

/// Whether outlines snap to the pixel grid.
#[derive(Clone, Copy, Debug, PartialEq, Eq, Structural)]
pub enum GridFitMode {
    Disabled,
    Enabled,
}

/// Number of samples the platform delivers for each pixel of a texture.
#[derive(Clone, Copy, Debug, PartialEq, Eq, Structural)]
pub enum TextureLayout {
    /// A single coverage sample per pixel.
    Alpha,
    /// Three samples per pixel, one per colour stripe.
    Subpixel,
}

impl TextureLayout {
    /// Samples per pixel.
    pub open spec fn channels(self) -> nat {
        match self {
            TextureLayout::Alpha => 1,
            TextureLayout::Subpixel => 3,
        }
    }

    /// Samples per pixel.
    pub fn channel_count(self) -> (n: usize)
        ensures
            n == self.channels(),
    {
        match self {
            TextureLayout::Alpha => 1,
            TextureLayout::Subpixel => 3,
        }
    }
}

/// Everything the platform is told about how to render one glyph.
#[derive(Clone, Copy, Debug, PartialEq, Eq, Structural)]
pub struct RenderPlan {
    pub strategy: RenderStrategy,
    pub measuring: MeasuringMode,
    pub antialias: AntialiasMode,
    pub grid_fit: GridFitMode,
    pub texture: TextureLayout,
}

impl RenderingMode {
    /// The layout of the texture the platform is asked for in this mode.
    pub open spec fn texture_layout(self) -> TextureLayout {
        if self == RenderingMode::Subpixel {
            TextureLayout::Subpixel
        } else {
            TextureLayout::Alpha
        }
    }

    /// The platform parameters for this mode and grid-fitting setting.
    pub open spec fn plan(self, grid_fitting: bool) -> RenderPlan {
        RenderPlan {
            strategy: if self == RenderingMode::Aliased {
                RenderStrategy::Aliased
            } else {
                RenderStrategy::NaturalSymmetric
            },
            measuring: if self == RenderingMode::Aliased {
                MeasuringMode::GdiClassic
            } else {
                MeasuringMode::Natural
            },
            antialias: if self == RenderingMode::Subpixel {
                AntialiasMode::ClearType
            } else {
                AntialiasMode::Grayscale
            },
            grid_fit: if grid_fitting {
                GridFitMode::Enabled
            } else {
                GridFitMode::Disabled
            },
            texture: self.texture_layout(),
        }
    }

    /// The layout of the texture to ask the platform for.
    pub fn texture(self) -> (layout: TextureLayout)
        ensures
            layout == self.texture_layout(),
    {
        match self {
            RenderingMode::Subpixel => TextureLayout::Subpixel,
            RenderingMode::Aliased => TextureLayout::Alpha,
            RenderingMode::Grayscale => TextureLayout::Alpha,
        }
    }

    /// The platform parameters to render with.
    pub fn render_plan(self, grid_fitting: bool) -> (plan: RenderPlan)
        ensures
            plan == self.plan(grid_fitting),
    {
        let (strategy, measuring, antialias) = match self {
            RenderingMode::Aliased => (
                RenderStrategy::Aliased,
                MeasuringMode::GdiClassic,
                AntialiasMode::Grayscale,
            ),
            RenderingMode::Grayscale => (
                RenderStrategy::NaturalSymmetric,
                MeasuringMode::Natural,
                AntialiasMode::Grayscale,
            ),
            RenderingMode::Subpixel => (
                RenderStrategy::NaturalSymmetric,
                MeasuringMode::Natural,
                AntialiasMode::ClearType,
            ),
        };
        let grid_fit = if grid_fitting {
            GridFitMode::Enabled
        } else {
            GridFitMode::Disabled
        };
        RenderPlan { strategy, measuring, antialias, grid_fit, texture: self.texture() }
    }

    /// The grid-fitting setting reaches the platform unchanged by the mode, and
    /// nothing else in the plan depends on it.
    pub proof fn lemma_grid_fit_independent(self, other: RenderingMode, grid_fitting: bool)
        ensures
            self.plan(grid_fitting).grid_fit == other.plan(grid_fitting).grid_fit,
            self.plan(true).grid_fit == GridFitMode::Enabled,
            self.plan(false).grid_fit == GridFitMode::Disabled,
            self.plan(true).strategy == self.plan(false).strategy,
            self.plan(true).measuring == self.plan(false).measuring,
            self.plan(true).antialias == self.plan(false).antialias,
            self.plan(true).texture == self.plan(false).texture,
    {
    }

    /// Three samples per pixel are asked for exactly when ClearType
    /// antialiasing is, which is exactly in subpixel mode.
    pub proof fn lemma_subpixel_only(self, grid_fitting: bool)
        ensures
            self.plan(grid_fitting).texture == TextureLayout::Subpixel <==> self
                == RenderingMode::Subpixel,
            self.plan(grid_fitting).antialias == AntialiasMode::ClearType <==> self
                == RenderingMode::Subpixel,
            self.plan(grid_fitting).texture.channels() == if self == RenderingMode::Subpixel {
                3nat
            } else {
                1nat
            },
    {
    }
}

} // verus!
