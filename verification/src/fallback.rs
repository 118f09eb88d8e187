//! The question put to the system when a face lacks a character.

use crate::face::{Font, FontStretch, FontStyle, FontWeight};
use vstd::prelude::*;

verus! {

/// Direction in which a paragraph is read.
#[derive(Clone, Copy, Debug, PartialEq, Eq, Structural)]
pub enum ReadingDirection {
    LeftToRight,
    RightToLeft,
}

/// A request to the system's font fallback: which face should draw this text?
#[derive(Debug, PartialEq, Eq)]
pub struct FallbackRequest {
    /// The text, in UTF-16.
    pub text: Vec<u16>,
    /// Where in the text the run to map starts.
    pub text_position: u32,
    /// Length of the run to map, in UTF-16 code units.
    pub text_length: u32,
    /// Locale of the whole text.
    pub locale: String,
    pub reading_direction: ReadingDirection,
    /// Family the substitute should continue from, if it can.
    pub base_family: String,
    pub base_weight: FontWeight,
    pub base_style: FontStyle,
    pub base_stretch: FontStretch,
}

/// The UTF-16 code units of a character: the code point itself below
/// U+10000, else a high and a low surrogate that carry the upper and the
/// lower ten bits of the code point less 0x10000.
pub open spec fn utf16_units(character: char) -> Seq<u16> {
    let code = character as u32;
    if code < 0x1_0000 {
        seq![code as u16]
    } else {
        seq![
            (0xD800 + (code - 0x1_0000) / 0x400) as u16,
            (0xDC00 + (code - 0x1_0000) % 0x400) as u16,
        ]
    }
}

/// Whether `request` asks for a substitute for the single character
/// `character`, read left to right in `locale`, that continues the face
/// described by the remaining arguments.
pub open spec fn asks_for(
    request: FallbackRequest,
    character: char,
    locale: Seq<char>,
    base_family: Seq<char>,
    base_weight: FontWeight,
    base_style: FontStyle,
    base_stretch: FontStretch,
) -> bool {
    &&& request.text@ == utf16_units(character)
    &&& request.text_position == 0
    &&& request.text_length == utf16_units(character).len()
    &&& request.locale@ == locale
    &&& request.reading_direction == ReadingDirection::LeftToRight
    &&& request.base_family@ == base_family
    &&& request.base_weight == base_weight
    &&& request.base_style == base_style
    &&& request.base_stretch == base_stretch
}

/// Encodes one character in UTF-16.
pub fn encode_utf16(character: char) -> (units: Vec<u16>)
    ensures
        units@ == utf16_units(character),
{
    let code: u32 = character as u32;
    let mut units: Vec<u16> = Vec::new();
    if code < 0x1_0000 {
        units.push(code as u16);
    } else {
        let offset: u32 = code - 0x1_0000;
        units.push((0xD800 + offset / 0x400) as u16);
        units.push((0xDC00 + offset % 0x400) as u16);
    }
    assert(units@ =~= utf16_units(character));
    units
}

/// Builds the request for a substitute for `character` that continues
/// `loaded_font`, for a user of the given locale.
pub fn fallback_request<F>(loaded_font: &Font<F>, character: char, locale: String) -> (request:
    FallbackRequest)
    ensures
        asks_for(
            request,
            character,
            locale@,
            loaded_font.family_name@,
            loaded_font.weight,
            loaded_font.style,
            loaded_font.stretch,
        ),
        request.locale == locale,
{
    let text = encode_utf16(character);
    proof {
        lemma_utf16_units(character);
    }
    let text_length: u32 = text.len() as u32;
    FallbackRequest {
        text,
        text_position: 0,
        text_length,
        locale,
        reading_direction: ReadingDirection::LeftToRight,
        base_family: loaded_font.family_name.clone(),
        base_weight: loaded_font.weight,
        base_style: loaded_font.style,
        base_stretch: loaded_font.stretch,
    }
}

/// The code units of the locale name that the host wrote into `buffer`,
/// where `written` counts the units it wrote, the closing zero included.
pub fn locale_name_units(buffer: &Vec<u16>, written: usize) -> (units: Vec<u16>)
    requires
        1 <= written <= buffer.len(),
    ensures
        units@ == buffer@.subrange(0, written - 1),
{
    let mut units: Vec<u16> = Vec::new();
    let mut index: usize = 0;
    while index < written - 1
        invariant
            1 <= written <= buffer.len(),
            index <= written - 1,
            units@ == buffer@.subrange(0, index as int),
        decreases written - 1 - index,
    {
        units.push(buffer[index]);
        assert(units@ =~= buffer@.subrange(0, index + 1));
        index = index + 1;
    }
    units
}

/// A character takes one code unit, which is no surrogate, or two: a high
/// surrogate and a low one, from which the code point is had back.
pub proof fn lemma_utf16_units(character: char)
    ensures
        utf16_units(character).len() == 1 || utf16_units(character).len() == 2,
        utf16_units(character).len() == 1 <==> (character as u32) < 0x1_0000,
        utf16_units(character).len() == 1 ==> {
            &&& utf16_units(character)[0] == character as u32
            &&& !(0xD800 <= utf16_units(character)[0] <= 0xDFFF)
        },
        utf16_units(character).len() == 2 ==> {
            &&& 0xD800 <= utf16_units(character)[0] <= 0xDBFF
            &&& 0xDC00 <= utf16_units(character)[1] <= 0xDFFF
            &&& character as u32 == 0x1_0000 + (utf16_units(character)[0] - 0xD800) * 0x400 + (
            utf16_units(character)[1] - 0xDC00)
        },
{
}

} // verus!
