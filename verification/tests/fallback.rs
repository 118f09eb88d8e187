use font_raster::face::{Font, FontStretch, FontStyle, FontWeight};
use font_raster::fallback::{
    encode_utf16, fallback_request, locale_name_units, ReadingDirection,
};

#[test]
fn characters_of_the_basic_plane_take_one_unit() {
    assert_eq!(encode_utf16('\0'), vec![0]);
    assert_eq!(encode_utf16('A'), vec![0x41]);
    assert_eq!(encode_utf16('\u{20AC}'), vec![0x20AC]);
    assert_eq!(encode_utf16('\u{D7FF}'), vec![0xD7FF]);
    assert_eq!(encode_utf16('\u{E000}'), vec![0xE000]);
    assert_eq!(encode_utf16('\u{FFFF}'), vec![0xFFFF]);
}

#[test]
fn characters_beyond_the_basic_plane_take_a_surrogate_pair() {
    assert_eq!(encode_utf16('\u{10000}'), vec![0xD800, 0xDC00]);
    assert_eq!(encode_utf16('\u{1F600}'), vec![0xD83D, 0xDE00]);
    assert_eq!(encode_utf16('\u{10FFFF}'), vec![0xDBFF, 0xDFFF]);
}

#[test]
fn the_encoding_is_that_of_the_standard_library() {
    for character in ['a', '\u{7F}', '\u{80}', '\u{7FF}', '\u{FFFD}', '\u{10400}', '\u{E0001}'] {
        let mut buffer = [0u16; 2];
        let expected = character.encode_utf16(&mut buffer).to_vec();
        assert_eq!(encode_utf16(character), expected);
        assert_eq!(encode_utf16(character).len(), character.len_utf16());
    }
}

#[test]
fn a_request_maps_the_whole_character_left_to_right() {
    let font = Font {
        face: (),
        family_name: "Cascadia Mono".to_string(),
        weight: FontWeight::SemiLight,
        style: FontStyle::Oblique,
        stretch: FontStretch::Normal,
    };
    let request = fallback_request(&font, '\u{1F600}', "ja-JP".to_string());
    assert_eq!(request.text, vec![0xD83D, 0xDE00]);
    assert_eq!(request.text_position, 0);
    assert_eq!(request.text_length, 2);
    assert_eq!(request.locale, "ja-JP");
    assert_eq!(request.reading_direction, ReadingDirection::LeftToRight);
    assert_eq!(request.base_family, "Cascadia Mono");
    assert_eq!(request.base_weight, FontWeight::SemiLight);
    assert_eq!(request.base_style, FontStyle::Oblique);
    assert_eq!(request.base_stretch, FontStretch::Normal);
}

#[test]
fn the_locale_name_ends_before_the_closing_zero() {
    let mut buffer = vec![0u16; 85];
    for (i, unit) in "en-US".encode_utf16().enumerate() {
        buffer[i] = unit;
    }
    let units = locale_name_units(&buffer, 6);
    assert_eq!(String::from_utf16(&units).unwrap(), "en-US");
    assert_eq!(locale_name_units(&buffer, 1), Vec::<u16>::new());
    assert_eq!(locale_name_units(&buffer, 85).len(), 84);
}
