use font_raster::mode::{
    AntialiasMode, GridFitMode, MeasuringMode, RenderStrategy, RenderingMode, TextureLayout,
};

#[test]
fn aliased_mode_uses_classic_measuring_and_one_channel() {
    let plan = RenderingMode::Aliased.render_plan(false);
    assert_eq!(plan.strategy, RenderStrategy::Aliased);
    assert_eq!(plan.measuring, MeasuringMode::GdiClassic);
    assert_eq!(plan.antialias, AntialiasMode::Grayscale);
    assert_eq!(plan.texture, TextureLayout::Alpha);
    assert_eq!(plan.grid_fit, GridFitMode::Disabled);
}

#[test]
fn grayscale_mode_uses_natural_measuring_and_one_channel() {
    let plan = RenderingMode::Grayscale.render_plan(true);
    assert_eq!(plan.strategy, RenderStrategy::NaturalSymmetric);
    assert_eq!(plan.measuring, MeasuringMode::Natural);
    assert_eq!(plan.antialias, AntialiasMode::Grayscale);
    assert_eq!(plan.texture, TextureLayout::Alpha);
    assert_eq!(plan.grid_fit, GridFitMode::Enabled);
}

#[test]
fn subpixel_mode_uses_cleartype_and_three_channels() {
    let plan = RenderingMode::Subpixel.render_plan(false);
    assert_eq!(plan.strategy, RenderStrategy::NaturalSymmetric);
    assert_eq!(plan.measuring, MeasuringMode::Natural);
    assert_eq!(plan.antialias, AntialiasMode::ClearType);
    assert_eq!(plan.texture, TextureLayout::Subpixel);
    assert_eq!(plan.texture.channel_count(), 3);
    assert_eq!(TextureLayout::Alpha.channel_count(), 1);
}

#[test]
fn grid_fitting_is_passed_through_in_every_mode() {
    for mode in [RenderingMode::Aliased, RenderingMode::Grayscale, RenderingMode::Subpixel] {
        assert_eq!(mode.render_plan(true).grid_fit, GridFitMode::Enabled);
        assert_eq!(mode.render_plan(false).grid_fit, GridFitMode::Disabled);
    }
}
