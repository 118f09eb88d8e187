//! Line metrics of a face at a size, from the face's design-unit metrics.
//!
//! Pixel values are kept exact: every field of `Metrics` is a numerator over
//! the one `denominator` of the record.

use crate::error::Error;
use crate::types::{Size, UNITS_PER_PIXEL};
use vstd::prelude::*;

verus! {

/// The character whose advance stands for the advance of every character.
pub const REFERENCE_CHARACTER: char = '!';

/// What a face says about itself, in design units.
#[derive(Clone, Copy, Debug, PartialEq, Eq, Structural)]
pub struct DesignMetrics {
    pub units_per_em: u16,
    /// Distance from the baseline up to the top of the line.
    pub ascent: u16,
    /// Distance from the baseline down to the bottom of the line.
    pub descent: u16,
    pub line_gap: i16,
    pub underline_position: i16,
    pub underline_thickness: u16,
    pub strikeout_position: i16,
    pub strikeout_thickness: u16,
}

/// Line metrics in pixels. Each field but the last is a numerator: the value
/// in pixels is the field divided by `denominator`.
#[derive(Clone, Copy, Debug, PartialEq, Eq, Structural)]
pub struct Metrics {
    /// Lowest point below the baseline; zero or negative.
    pub descent: i64,
    pub average_advance: u64,
    pub line_height: i64,
    pub underline_position: i64,
    pub underline_thickness: i64,
    pub strikeout_position: i64,
    pub strikeout_thickness: i64,
    pub denominator: u64,
}

impl DesignMetrics {
    /// Height of a line in design units: ascent, descent and line gap.
    pub open spec fn line_height(self) -> int {
        self.ascent + self.descent + self.line_gap
    }
}

/// The metrics of a face at a size, where `advance_width` is the advance of
/// the reference character in design units.
///
/// A design value `v` becomes `v * size / units_per_em` pixels, with the size
/// in pixels; numerator and denominator are both in size units. The descent
/// is negated, so that it points below the baseline as the ascent points above.
pub open spec fn scaled_metrics(design: DesignMetrics, size: Size, advance_width: u32) -> Metrics {
    Metrics {
        descent: (-(design.descent as int) * size.units()) as i64,
        average_advance: (advance_width * size.units()) as u64,
        line_height: (design.line_height() * size.units()) as i64,
        underline_position: (design.underline_position * size.units()) as i64,
        underline_thickness: (design.underline_thickness * size.units()) as i64,
        strikeout_position: (design.strikeout_position * size.units()) as i64,
        strikeout_thickness: (design.strikeout_thickness * size.units()) as i64,
        denominator: (design.units_per_em * UNITS_PER_PIXEL) as u64,
    }
}

/// The advance to measure with, from what the platform answered when asked
/// for the reference glyph's metrics: the first advance it gave, if it gave any.
pub open spec fn first_advance(advances: Result<Vec<u32>, i32>) -> Option<u32> {
    match advances {
        Ok(widths) => if widths@.len() > 0 {
            Some(widths@[0])
        } else {
            None
        },
        Err(_) => None,
    }
}

fn scale(value: i64, size: Size) -> (scaled: i64)
    requires
        -0x4_0000 <= value <= 0x4_0000,
    ensures
        scaled == value * size.units(),
{
    let units: i64 = size.units() as i64;
    assert(-0x4_0000 * 0x1_0000_0000 <= value * units <= 0x4_0000 * 0x1_0000_0000)
        by (nonlinear_arith)
        requires
            -0x4_0000 <= value <= 0x4_0000,
            0 <= units < 0x1_0000_0000,
    ;
    value * units
}

/// Computes the metrics of a face at a size.
pub fn scale_metrics(design: &DesignMetrics, size: Size, advance_width: u32) -> (metrics: Metrics)
    ensures
        metrics == scaled_metrics(*design, size, advance_width),
        metrics.descent == -(design.descent as int) * size.units(),
        metrics.average_advance == advance_width * size.units(),
        metrics.line_height == design.line_height() * size.units(),
        metrics.line_height == (design.ascent * size.units()) - metrics.descent + (design.line_gap
            * size.units()),
        metrics.underline_position == design.underline_position * size.units(),
        metrics.underline_thickness == design.underline_thickness * size.units(),
        metrics.strikeout_position == design.strikeout_position * size.units(),
        metrics.strikeout_thickness == design.strikeout_thickness * size.units(),
        metrics.denominator == design.units_per_em * UNITS_PER_PIXEL,
        metrics.descent <= 0,
{
    let units: u64 = size.units() as u64;
    let advance: u64 = advance_width as u64;
    assert(advance * units <= 0xFFFF_FFFF * 0xFFFF_FFFF) by (nonlinear_arith)
        requires
            0 <= advance <= 0xFFFF_FFFF,
            0 <= units <= 0xFFFF_FFFF,
    ;
    let ascent = scale(design.ascent as i64, size);
    let descent = scale(-(design.descent as i64), size);
    let line_gap = scale(design.line_gap as i64, size);
    assert(ascent - descent + line_gap == design.line_height() * size.units())
        by (nonlinear_arith)
        requires
            ascent == design.ascent * size.units(),
            descent == -(design.descent as int) * size.units(),
            line_gap == design.line_gap * size.units(),
            design.line_height() == design.ascent + design.descent + design.line_gap,
    ;
    assert(descent <= 0) by (nonlinear_arith)
        requires
            descent == -(design.descent as int) * size.units(),
            design.descent >= 0,
            size.units() >= 0,
    ;
    let line_height_design: i64 = design.ascent as i64 + design.descent as i64
        + design.line_gap as i64;
    let line_height = scale(line_height_design, size);
    Metrics {
        descent,
        average_advance: advance * units,
        line_height,
        underline_position: scale(design.underline_position as i64, size),
        underline_thickness: scale(design.underline_thickness as i64, size),
        strikeout_position: scale(design.strikeout_position as i64, size),
        strikeout_thickness: scale(design.strikeout_thickness as i64, size),
        denominator: design.units_per_em as u64 * UNITS_PER_PIXEL as u64,
    }
}

/// Computes the metrics of a face at a size from what the platform answered
/// when asked for the reference glyph's metrics. Fails with `MetricsNotFound`
/// exactly when the platform gave no advance.
pub fn metrics_from_design(
    design: &DesignMetrics,
    size: Size,
    advances: &Result<Vec<u32>, i32>,
) -> (result: Result<Metrics, Error>)
    ensures
        match first_advance(*advances) {
            Some(width) => result == Ok::<Metrics, Error>(scaled_metrics(*design, size, width)),
            None => result matches Err(Error::MetricsNotFound),
        },
{
    match advances {
        Ok(widths) => {
            if widths.len() > 0 {
                Ok(scale_metrics(design, size, widths[0]))
            } else {
                Err(Error::MetricsNotFound)
            }
        },
        Err(_) => Err(Error::MetricsNotFound),
    }
}

/// Metrics scale linearly with the size: at a larger size a face with a
/// positive line height has a larger line height, over the same denominator.
pub proof fn lemma_line_height_grows(
    design: DesignMetrics,
    smaller: Size,
    larger: Size,
    advance_width: u32,
)
    requires
        design.line_height() > 0,
        design.units_per_em > 0,
        smaller.units() < larger.units(),
    ensures
        scaled_metrics(design, larger, advance_width).line_height > scaled_metrics(
            design,
            smaller,
            advance_width,
        ).line_height,
        scaled_metrics(design, larger, advance_width).denominator == scaled_metrics(
            design,
            smaller,
            advance_width,
        ).denominator,
        scaled_metrics(design, larger, advance_width).denominator > 0,
{
    let height = design.line_height();
    let small = smaller.units() as int;
    let large = larger.units() as int;
    assert(height * small < height * large) by (nonlinear_arith)
        requires
            height > 0,
            small < large,
    ;
    assert(-0x4_0000 * 0x1_0000_0000 <= height * small && height * large <= 0x4_0000
        * 0x1_0000_0000) by (nonlinear_arith)
        requires
            0 < height <= 0x4_0000,
            0 <= small < large < 0x1_0000_0000,
    ;
    assert(0 < design.units_per_em * UNITS_PER_PIXEL <= 0xFFFF * 64) by (nonlinear_arith)
        requires
            0 < design.units_per_em <= 0xFFFF,
            UNITS_PER_PIXEL == 64,
    ;
}

/// The line height is positive exactly when the face's design line height
/// and the size are positive.
pub proof fn lemma_line_height_sign(design: DesignMetrics, size: Size, advance_width: u32)
    ensures
        scaled_metrics(design, size, advance_width).line_height > 0 <==> design.line_height() > 0
            && size.units() > 0,
        scaled_metrics(design, size, advance_width).denominator > 0 <==> design.units_per_em > 0,
{
    let height = design.line_height();
    let units = size.units() as int;
    assert(height * units > 0 <==> height > 0 && units > 0) by (nonlinear_arith)
        requires
            units >= 0,
    ;
    assert(-0x4_0000 * 0x1_0000_0000 <= height * units <= 0x4_0000 * 0x1_0000_0000)
        by (nonlinear_arith)
        requires
            -0x4_0000 <= height <= 0x4_0000,
            0 <= units < 0x1_0000_0000,
    ;
    assert(design.units_per_em * UNITS_PER_PIXEL == design.units_per_em * 64);
}

/// Every metric of a face is the same multiple of its design value: twice
/// the size gives twice each numerator.
pub proof fn lemma_metrics_linear(
    design: DesignMetrics,
    size: Size,
    double: Size,
    advance_width: u32,
)
    requires
        double.units() == 2 * size.units(),
    ensures
        scaled_metrics(design, double, advance_width).line_height == 2 * scaled_metrics(
            design,
            size,
            advance_width,
        ).line_height,
        scaled_metrics(design, double, advance_width).descent == 2 * scaled_metrics(
            design,
            size,
            advance_width,
        ).descent,
        scaled_metrics(design, double, advance_width).average_advance == 2 * scaled_metrics(
            design,
            size,
            advance_width,
        ).average_advance,
{
    let units = size.units() as int;
    let height = design.line_height();
    let descent = -(design.descent as int);
    let advance = advance_width as int;
    assert(height * (2 * units) == 2 * (height * units)) by (nonlinear_arith);
    assert(descent * (2 * units) == 2 * (descent * units)) by (nonlinear_arith);
    assert(advance * (2 * units) == 2 * (advance * units)) by (nonlinear_arith);
    assert(-0x4_0000 * 0x1_0000_0000 <= height * (2 * units) <= 0x4_0000 * 0x1_0000_0000)
        by (nonlinear_arith)
        requires
            -0x4_0000 <= height <= 0x4_0000,
            0 <= 2 * units < 0x1_0000_0000,
    ;
    assert(-0x4_0000 * 0x1_0000_0000 <= descent * (2 * units) <= 0) by (nonlinear_arith)
        requires
            -0x4_0000 <= descent <= 0,
            0 <= 2 * units < 0x1_0000_0000,
    ;
    assert(0 <= advance * (2 * units) <= 0xFFFF_FFFF * 0xFFFF_FFFF) by (nonlinear_arith)
        requires
            0 <= advance <= 0xFFFF_FFFF,
            0 <= 2 * units <= 0xFFFF_FFFF,
    ;
}

} // verus!
