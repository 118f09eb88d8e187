//! Identities of fonts and glyphs, and the descriptions by which fonts are requested.

use vstd::prelude::*;
use vstd::utf8::encode_utf8;

verus! {

/// Number of size units in one pixel.
pub const UNITS_PER_PIXEL: u32 = 64;

/// Identifier of a font that a rasterizer has resolved.
///
/// A key names the rasterizer that issued it and the key's position among
/// the keys of that rasterizer. A rasterizer issues its keys in increasing
/// order and never issues one twice, so where no two rasterizers of a process
/// have the same owner number, no key is issued twice in the process.
#[derive(Clone, Copy, Debug, PartialEq, Eq, Hash, Structural)]
pub struct FontKey {
    pub(crate) owner: u64,
    pub(crate) token: u64,
}

impl FontKey {
    /// Number of the rasterizer that issued this key.
    pub closed spec fn spec_owner(self) -> u64 {
        self.owner
    }

    /// Number of the rasterizer that issued this key.
    #[verifier::when_used_as_spec(spec_owner)]
    pub fn owner(self) -> (o: u64)
        ensures
            o == self.owner(),
    {
        self.owner
    }

    /// Position of this key in the order in which its rasterizer issued keys.
    pub closed spec fn spec_token(self) -> u64 {
        self.token
    }

    /// Position of this key in the order in which its rasterizer issued keys.
    #[verifier::when_used_as_spec(spec_token)]
    pub fn token(self) -> (t: u64)
        ensures
            t == self.token(),
    {
        self.token
    }

    /// The key that the rasterizer `owner` issues after it has issued
    /// `count` others.
    pub closed spec fn nth(owner: u64, count: nat) -> FontKey {
        FontKey { owner, token: count as u64 }
    }

    /// The key that the rasterizer `owner` issues after it has issued
    /// `count` others.
    pub(crate) fn issue(owner: u64, count: u64) -> (key: FontKey)
        ensures
            key == FontKey::nth(owner, count as nat),
            key.owner() == owner,
            key.token() == count,
    {
        FontKey { owner, token: count }
    }

    /// The key issued by `owner` after `count` others has that owner and
    /// the position `count`.
    pub proof fn lemma_nth(owner: u64, count: nat)
        requires
            count <= u64::MAX,
        ensures
            FontKey::nth(owner, count).owner() == owner,
            FontKey::nth(owner, count).token() == count,
    {
    }

    /// Keys are told apart by their owners and positions alone.
    pub proof fn lemma_identified(self, other: FontKey)
        ensures
            self == other <==> self.owner() == other.owner() && self.token() == other.token(),
    {
    }
}

/// A font size, in sixty-fourths of a pixel.
#[derive(Clone, Copy, Debug, PartialEq, Eq, Hash, Structural)]
pub struct Size {
    units: u32,
}

impl Size {
    /// The size in sixty-fourths of a pixel.
    pub closed spec fn spec_units(self) -> u32 {
        self.units
    }

    /// The size in sixty-fourths of a pixel.
    #[verifier::when_used_as_spec(spec_units)]
    pub fn units(self) -> (u: u32)
        ensures
            u == self.units(),
    {
        self.units
    }

    /// The size of the given number of units.
    pub fn from_units(units: u32) -> (size: Size)
        ensures
            size.units() == units,
    {
        Size { units }
    }

    /// The size of a whole number of pixels.
    pub fn from_px(px: u16) -> (size: Size)
        ensures
            size.units() == px * UNITS_PER_PIXEL,
    {
        let wide: u32 = px as u32;
        Size { units: wide * UNITS_PER_PIXEL }
    }

    /// Sizes are told apart by their units alone.
    pub proof fn lemma_units_identify(self, other: Size)
        ensures
            self == other <==> self.units() == other.units(),
    {
    }
}

/// One character of one font at one size.
#[derive(Clone, Copy, Debug, PartialEq, Eq, Hash, Structural)]
pub struct GlyphKey {
    pub character: char,
    pub font_key: FontKey,
    pub size: Size,
}

/// Requested stroke weight.
#[derive(Clone, Copy, Debug, PartialEq, Eq, Hash, Structural)]
pub enum Weight {
    Normal,
    Bold,
}

/// Requested slant.
#[derive(Clone, Copy, Debug, PartialEq, Eq, Hash, Structural)]
pub enum Slant {
    Normal,
    Italic,
    Oblique,
}

/// A hash taken one step further, by a number below `2^64`.
pub open spec fn fold_hash(hash: u64, next: u64) -> u64 {
    ((hash * 31 + next) % 0x1_0000_0000_0000_0000) as u64
}

/// The hash of a row of bytes, folded from the first byte to the last.
pub open spec fn hash_of_bytes(bytes: Seq<u8>) -> u64
    decreases bytes.len(),
{
    if bytes.len() == 0 {
        0
    } else {
        fold_hash(hash_of_bytes(bytes.drop_last()), bytes.last() as u64)
    }
}

/// The hash of a text: that of its bytes in UTF-8.
pub open spec fn hash_of_text(text: Seq<char>) -> u64 {
    hash_of_bytes(encode_utf8(text))
}

fn fold(hash: u64, next: u64) -> (folded: u64)
    ensures
        folded == fold_hash(hash, next),
{
    let wide: u128 = hash as u128 * 31 + next as u128;
    (wide % 0x1_0000_0000_0000_0000u128) as u64
}

fn hash_text(text: &String) -> (hash: u64)
    ensures
        hash == hash_of_text(text@),
{
    let bytes = text.as_str().as_bytes();
    let mut hash: u64 = 0;
    let mut index: usize = 0;
    while index < bytes.len()
        invariant
            index <= bytes@.len(),
            hash == hash_of_bytes(bytes@.take(index as int)),
        decreases bytes.len() - index,
    {
        proof {
            assert(bytes@.take(index + 1).drop_last() =~= bytes@.take(index as int));
        }
        hash = fold(hash, bytes[index] as u64);
        index = index + 1;
    }
    proof {
        assert(bytes@.take(index as int) =~= bytes@);
    }
    hash
}

/// How a face is picked within its family.
#[derive(Debug, PartialEq, Eq, Hash)]
pub enum Style {
    /// The face with exactly this name.
    Specific(String),
    /// The face that comes closest to this weight and slant.
    Description { slant: Slant, weight: Weight },
}

/// What a `Style` says, with the face name as a sequence of characters.
pub enum StyleView {
    Specific(Seq<char>),
    Description { slant: Slant, weight: Weight },
}

impl StyleView {
    /// The number that stands for this style where descriptions are sorted
    /// into buckets. Styles that are the same have the same number.
    pub open spec fn bucket(self) -> u64 {
        match self {
            StyleView::Specific(name) => fold_hash(hash_of_text(name), 6),
            StyleView::Description { slant, weight } => {
                let slanted: u64 = match slant {
                    Slant::Normal => 0,
                    Slant::Italic => 1,
                    Slant::Oblique => 2,
                };
                let weighted: u64 = match weight {
                    Weight::Normal => 0,
                    Weight::Bold => 3,
                };
                (slanted + weighted) as u64
            },
        }
    }
}

impl View for Style {
    type V = StyleView;

    open spec fn view(&self) -> StyleView {
        match *self {
            Style::Specific(name) => StyleView::Specific(name@),
            Style::Description { slant, weight } => StyleView::Description { slant, weight },
        }
    }
}

impl Clone for Style {
    fn clone(&self) -> (copy: Self)
        ensures
            copy == *self,
    {
        match self {
            Style::Specific(name) => Style::Specific(name.clone()),
            Style::Description { slant, weight } => Style::Description {
                slant: *slant,
                weight: *weight,
            },
        }
    }
}

impl Style {
    /// The number that stands for this style where descriptions are sorted
    /// into buckets.
    pub fn bucket(&self) -> (number: u64)
        ensures
            number == self@.bucket(),
    {
        match self {
            Style::Specific(name) => fold(hash_text(name), 6),
            Style::Description { slant, weight } => {
                let slanted: u64 = match slant {
                    Slant::Normal => 0,
                    Slant::Italic => 1,
                    Slant::Oblique => 2,
                };
                let weighted: u64 = match weight {
                    Weight::Normal => 0,
                    Weight::Bold => 3,
                };
                slanted + weighted
            },
        }
    }

    /// Whether two styles say the same.
    pub fn same_as(&self, other: &Style) -> (same: bool)
        ensures
            same == (self@ == other@),
    {
        match self {
            Style::Specific(name) => match other {
                Style::Specific(other_name) => {
                    let same = *name == *other_name;
                    same
                },
                Style::Description { .. } => false,
            },
            Style::Description { slant, weight } => match other {
                Style::Specific(_) => false,
                Style::Description { slant: other_slant, weight: other_weight } => {
                    *slant == *other_slant && *weight == *other_weight
                },
            },
        }
    }
}

/// A request for a font: a family name and a style within the family.
#[derive(Debug, PartialEq, Eq, Hash)]
pub struct FontDesc {
    pub name: String,
    pub style: Style,
}

/// What a `FontDesc` says, with names as sequences of characters.
///
/// Two descriptions are the same request exactly when their views are equal.
pub struct FontDescView {
    pub name: Seq<char>,
    pub style: StyleView,
}

impl FontDescView {
    /// The number of the bucket into which a cache sorts this description.
    /// Descriptions that are the same request are in the same bucket.
    pub open spec fn bucket(self) -> u64 {
        fold_hash(hash_of_text(self.name), self.style.bucket())
    }
}

impl View for FontDesc {
    type V = FontDescView;

    open spec fn view(&self) -> FontDescView {
        FontDescView { name: self.name@, style: self.style@ }
    }
}

impl Clone for FontDesc {
    fn clone(&self) -> (copy: Self)
        ensures
            copy == *self,
    {
        FontDesc { name: self.name.clone(), style: self.style.clone() }
    }
}

impl FontDesc {
    /// The request for `style` within the family `name`.
    pub fn new(name: String, style: Style) -> (desc: FontDesc)
        ensures
            desc.name == name,
            desc.style == style,
    {
        FontDesc { name, style }
    }

    /// The number of the bucket into which a cache sorts this description.
    pub fn bucket(&self) -> (number: u64)
        ensures
            number == self@.bucket(),
    {
        fold(hash_text(&self.name), self.style.bucket())
    }

    /// Whether two descriptions are the same request.
    pub fn same_as(&self, other: &FontDesc) -> (same: bool)
        ensures
            same == (self@ == other@),
    {
        let same_name = self.name == other.name;
        same_name && self.style.same_as(&other.style)
    }
}

} // verus!
