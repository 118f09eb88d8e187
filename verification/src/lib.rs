//! The deciding half of a DirectWrite text rasterizer: the font cache, font
//! matching within a family, line metrics, fallback requests and the assembly
//! of glyphs from the platform's textures.
//!
//! Nothing in this crate calls the platform. The three operations of the
//! [`rasterizer::DirectWriteRasterizer`], which are loading a font
//! ([`loading`]), measuring it ([`measuring`]) and retrieving a glyph
//! ([`retrieval`]), each take what the platform has answered so far and say
//! what to ask next, or how the operation ends. The caller carries the
//! question to DirectWrite and comes back with the answer.
//!
//! Sizes and metrics are exact: a size counts sixty-fourths of a pixel, and a
//! metric is a numerator over a denominator.
//!
//! A font key carries the number of the rasterizer that issued it. Whoever
//! makes rasterizers gives each a number of its own; a key is then known to
//! the rasterizer that issued it and to no other.

pub mod cache;
pub mod error;
pub mod face;
pub mod fallback;
pub mod glyph;
pub mod loading;
pub mod matching;
pub mod measuring;
pub mod metrics;
pub mod mode;
pub mod rasterizer;
pub mod retrieval;
pub mod types;
