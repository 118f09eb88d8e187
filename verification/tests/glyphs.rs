use font_raster::error::AnalysisFailure;
use font_raster::glyph::{
    assemble_glyph, expand_alpha_to_rgb, BitmapBuffer, GlyphBounds, GlyphTexture,
};
use font_raster::mode::TextureLayout;

fn bounds(left: i32, top: i32, right: i32, bottom: i32) -> GlyphBounds {
    GlyphBounds { left, top, right, bottom }
}

#[test]
fn alpha_samples_are_repeated_three_times_in_order() {
    assert_eq!(expand_alpha_to_rgb(&vec![]), Vec::<u8>::new());
    assert_eq!(expand_alpha_to_rgb(&vec![7]), vec![7, 7, 7]);
    assert_eq!(
        expand_alpha_to_rgb(&vec![0, 255, 128]),
        vec![0, 0, 0, 255, 255, 255, 128, 128, 128]
    );
    let samples: Vec<u8> = (0..=255).collect();
    let rgb = expand_alpha_to_rgb(&samples);
    assert_eq!(rgb.len(), 768);
    for (i, byte) in rgb.iter().enumerate() {
        assert_eq!(*byte, samples[i / 3]);
    }
}

#[test]
fn bounds_are_valid_when_ordered_and_within_reach() {
    assert!(bounds(0, 0, 0, 0).is_valid());
    assert!(bounds(-3, -10, 5, 2).is_valid());
    assert!(bounds(5, 5, 5, 9).is_valid());
    assert!(!bounds(1, 0, 0, 0).is_valid());
    assert!(!bounds(0, 1, 0, 0).is_valid());
    assert!(bounds(0, 0, i32::MAX, i32::MAX).is_valid());
    assert!(bounds(-1, 0, i32::MAX - 1, 0).is_valid());
    assert!(!bounds(-1, 0, i32::MAX, 0).is_valid());
    assert!(!bounds(i32::MIN, 0, 0, 0).is_valid());
    assert!(!bounds(0, -2, 0, i32::MAX).is_valid());
    assert!(!bounds(0, i32::MIN, 0, i32::MIN).is_valid());
    assert!(bounds(0, i32::MIN + 1, 0, i32::MIN + 1).is_valid());
}

#[test]
fn a_texture_holds_exactly_the_samples_of_its_rectangle() {
    let area = bounds(2, -7, 5, -5);
    assert!(GlyphTexture::new(area, TextureLayout::Alpha, vec![0; 6]).is_some());
    assert!(GlyphTexture::new(area, TextureLayout::Alpha, vec![0; 5]).is_none());
    assert!(GlyphTexture::new(area, TextureLayout::Alpha, vec![0; 18]).is_none());
    assert!(GlyphTexture::new(area, TextureLayout::Subpixel, vec![0; 18]).is_some());
    assert!(GlyphTexture::new(area, TextureLayout::Subpixel, vec![0; 6]).is_none());
    assert!(GlyphTexture::new(bounds(5, 0, 2, 3), TextureLayout::Alpha, vec![]).is_none());
    assert!(GlyphTexture::new(bounds(0, 0, 0, 3), TextureLayout::Alpha, vec![]).is_some());
    assert!(GlyphTexture::new(bounds(0, 0, 0, 3), TextureLayout::Alpha, vec![1]).is_none());
    let made = GlyphTexture::new(area, TextureLayout::Subpixel, vec![9; 18]).unwrap();
    assert_eq!(made.bounds(), area);
    assert_eq!(made.layout(), TextureLayout::Subpixel);
    assert_eq!(made.sample_count(), 18);
}

#[test]
fn a_glyph_has_the_size_of_its_texture_and_counts_top_upwards() {
    let samples = vec![10, 20, 30, 40, 50, 60];
    let texture =
        GlyphTexture::new(bounds(-1, -12, 2, -10), TextureLayout::Alpha, samples).unwrap();
    let glyph = assemble_glyph('g', texture);
    assert_eq!(glyph.character, 'g');
    assert_eq!(glyph.width, 3);
    assert_eq!(glyph.height, 2);
    assert_eq!(glyph.top, 12);
    assert_eq!(glyph.left, -1);
    assert_eq!(glyph.advance, (0, 0));
    assert_eq!(
        glyph.buffer,
        BitmapBuffer::Rgb(vec![
            10, 10, 10, 20, 20, 20, 30, 30, 30, 40, 40, 40, 50, 50, 50, 60, 60, 60
        ])
    );
}

#[test]
fn a_glyph_below_the_baseline_has_a_negative_top() {
    let texture = GlyphTexture::new(bounds(0, 3, 1, 4), TextureLayout::Alpha, vec![200]).unwrap();
    let glyph = assemble_glyph('_', texture);
    assert_eq!(glyph.top, -3);
    assert_eq!((glyph.width, glyph.height), (1, 1));
}

#[test]
fn subpixel_samples_pass_through_unchanged() {
    let samples: Vec<u8> = vec![1, 2, 3, 4, 5, 6, 7, 8, 9, 10, 11, 12];
    let texture =
        GlyphTexture::new(bounds(0, -2, 2, 0), TextureLayout::Subpixel, samples.clone()).unwrap();
    let glyph = assemble_glyph('x', texture);
    assert_eq!((glyph.width, glyph.height), (2, 2));
    assert_eq!(glyph.buffer, BitmapBuffer::Rgb(samples));
}

#[test]
fn both_layouts_give_three_bytes_per_pixel() {
    let area = bounds(0, 0, 7, 5);
    let gray = GlyphTexture::new(area, TextureLayout::Alpha, vec![1; 35]).unwrap();
    let subpixel = GlyphTexture::new(area, TextureLayout::Subpixel, vec![1; 105]).unwrap();
    assert_eq!(subpixel.sample_count(), 3 * gray.sample_count());
    let from_gray = assemble_glyph('m', gray);
    let from_subpixel = assemble_glyph('m', subpixel);
    assert_eq!(from_gray, from_subpixel);
    match from_subpixel.buffer {
        BitmapBuffer::Rgb(bytes) => assert_eq!(bytes.len(), 105),
        BitmapBuffer::Rgba(_) => panic!("glyphs are RGB"),
    }
}

#[test]
fn a_glyph_without_ink_has_an_empty_buffer() {
    for layout in [TextureLayout::Alpha, TextureLayout::Subpixel] {
        let texture = GlyphTexture::new(bounds(4, -4, 4, -4), layout, vec![]).unwrap();
        let glyph = assemble_glyph(' ', texture);
        assert_eq!((glyph.width, glyph.height), (0, 0));
        assert_eq!((glyph.top, glyph.left), (4, 4));
        assert_eq!(glyph.buffer, BitmapBuffer::Rgb(vec![]));
    }
}

#[test]
fn what_does_not_fill_its_bounds_is_a_failed_analysis() {
    let area = bounds(0, 0, 2, 2);
    let made = GlyphTexture::from_analysis(area, TextureLayout::Alpha, vec![1, 2, 3, 4]).unwrap();
    assert_eq!(made.sample_count(), 4);
    let cases = [(area, 3), (area, 12), (bounds(2, 0, 0, 2), 0), (bounds(0, 2, 2, 0), 4)];
    for (bad, samples) in cases {
        match GlyphTexture::from_analysis(bad, TextureLayout::Alpha, vec![0; samples]) {
            Err(failure) => assert_eq!(failure, AnalysisFailure::InvalidTexture),
            Ok(_) => panic!("{:?} is not filled by {} samples", bad, samples),
        }
    }
}
