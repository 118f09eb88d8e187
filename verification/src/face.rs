//! Loaded faces and the attributes DirectWrite reports for them.

use crate::types::{Slant, Weight};
use vstd::prelude::*;
use vstd::std_specs::convert::FromSpecImpl;

verus! {

/// Stroke weight of a face, on DirectWrite's scale.
#[derive(Clone, Copy, Debug, PartialEq, Eq, Structural)]
pub enum FontWeight {
    Thin,
    ExtraLight,
    Light,
    SemiLight,
    Regular,
    Medium,
    SemiBold,
    Bold,
    ExtraBold,
    Black,
    ExtraBlack,
    /// A weight between the named ones.
    Unknown(u32),
}

/// Slant of a face.
#[derive(Clone, Copy, Debug, PartialEq, Eq, Structural)]
pub enum FontStyle {
    Normal,
    Oblique,
    Italic,
}

/// Width class of a face.
#[derive(Clone, Copy, Debug, PartialEq, Eq, Structural)]
pub enum FontStretch {
    Undefined,
    UltraCondensed,
    ExtraCondensed,
    Condensed,
    SemiCondensed,
    Normal,
    SemiExpanded,
    Expanded,
    ExtraExpanded,
    UltraExpanded,
}

/// The face weight to ask for when `weight` is requested.
pub open spec fn face_weight_for(weight: Weight) -> FontWeight {
    match weight {
        Weight::Bold => FontWeight::Bold,
        Weight::Normal => FontWeight::Regular,
    }
}

/// The face style to ask for when `slant` is requested.
pub open spec fn face_style_for(slant: Slant) -> FontStyle {
    match slant {
        Slant::Oblique => FontStyle::Oblique,
        Slant::Italic => FontStyle::Italic,
        Slant::Normal => FontStyle::Normal,
    }
}

impl FromSpecImpl<Weight> for FontWeight {
    open spec fn obeys_from_spec() -> bool {
        true
    }

    open spec fn from_spec(weight: Weight) -> FontWeight {
        face_weight_for(weight)
    }
}

impl From<Weight> for FontWeight {
    /// The face weight to ask for when `weight` is requested.
    fn from(weight: Weight) -> (face_weight: FontWeight)
        ensures
            face_weight == face_weight_for(weight),
    {
        match weight {
            Weight::Bold => FontWeight::Bold,
            Weight::Normal => FontWeight::Regular,
        }
    }
}

impl FromSpecImpl<Slant> for FontStyle {
    open spec fn obeys_from_spec() -> bool {
        true
    }

    open spec fn from_spec(slant: Slant) -> FontStyle {
        face_style_for(slant)
    }
}

impl From<Slant> for FontStyle {
    /// The face style to ask for when `slant` is requested.
    fn from(slant: Slant) -> (face_style: FontStyle)
        ensures
            face_style == face_style_for(slant),
    {
        match slant {
            Slant::Oblique => FontStyle::Oblique,
            Slant::Italic => FontStyle::Italic,
            Slant::Normal => FontStyle::Normal,
        }
    }
}

/// A face that has been resolved, with what the platform reports about it.
///
/// `F` is the platform's handle to the face. The library stores and hands back
/// the handle and never looks inside it.
#[derive(Debug)]
pub struct Font<F> {
    pub face: F,
    pub family_name: String,
    pub weight: FontWeight,
    pub style: FontStyle,
    pub stretch: FontStretch,
}

} // verus!
