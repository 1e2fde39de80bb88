//! Font attributes and their native 32-bit codes.

use vstd::prelude::*;

verus! {

/// Weight of a font face. Mirrors the native weight scale; a value that is
/// not one of the named weights is kept as `Unknown`.
#[derive(PartialEq, Eq, Structural, Debug, Clone, Copy)]
pub enum FontWeight {
    Thin,
    ExtraLight,
    Light,
    SemiLight,
    Regular,
    Medium,
    SemiBold,
    Bold,
    ExtraBold,
    Black,
    ExtraBlack,
    Unknown(u32),
}

impl FontWeight {
    /// The native code of a weight.
    pub open spec fn code(self) -> u32 {
        match self {
            FontWeight::Thin => 100,
            FontWeight::ExtraLight => 200,
            FontWeight::Light => 300,
            FontWeight::SemiLight => 350,
            FontWeight::Regular => 400,
            FontWeight::Medium => 500,
            FontWeight::SemiBold => 600,
            FontWeight::Bold => 700,
            FontWeight::ExtraBold => 800,
            FontWeight::Black => 900,
            FontWeight::ExtraBlack => 950,
            FontWeight::Unknown(v) => v,
        }
    }

    /// Whether a native code names one of the eleven named weights.
    pub open spec fn is_named_code(v: u32) -> bool {
        v == 100 || v == 200 || v == 300 || v == 350 || v == 400 || v == 500 || v == 600 || v
            == 700 || v == 800 || v == 900 || v == 950
    }

    /// The weight that a native code stands for.
    pub open spec fn of_code(v: u32) -> FontWeight {
        if v == 100 {
            FontWeight::Thin
        } else if v == 200 {
            FontWeight::ExtraLight
        } else if v == 300 {
            FontWeight::Light
        } else if v == 350 {
            FontWeight::SemiLight
        } else if v == 400 {
            FontWeight::Regular
        } else if v == 500 {
            FontWeight::Medium
        } else if v == 600 {
            FontWeight::SemiBold
        } else if v == 700 {
            FontWeight::Bold
        } else if v == 800 {
            FontWeight::ExtraBold
        } else if v == 900 {
            FontWeight::Black
        } else if v == 950 {
            FontWeight::ExtraBlack
        } else {
            FontWeight::Unknown(v)
        }
    }

    /// A weight is canonical when it is what `of_code` gives for its own
    /// code: a named weight, or `Unknown` of a code that has no name.
    pub open spec fn is_canonical(self) -> bool {
        match self {
            FontWeight::Unknown(v) => !Self::is_named_code(v),
            _ => true,
        }
    }

    pub fn to_u32(&self) -> (code: u32)
        ensures
            code == self.code(),
    {
        match self {
            FontWeight::Thin => 100,
            FontWeight::ExtraLight => 200,
            FontWeight::Light => 300,
            FontWeight::SemiLight => 350,
            FontWeight::Regular => 400,
            FontWeight::Medium => 500,
            FontWeight::SemiBold => 600,
            FontWeight::Bold => 700,
            FontWeight::ExtraBold => 800,
            FontWeight::Black => 900,
            FontWeight::ExtraBlack => 950,
            FontWeight::Unknown(v) => *v,
        }
    }

    pub fn from_u32(v: u32) -> (weight: FontWeight)
        ensures
            weight == Self::of_code(v),
    {
        match v {
            100 => FontWeight::Thin,
            200 => FontWeight::ExtraLight,
            300 => FontWeight::Light,
            350 => FontWeight::SemiLight,
            400 => FontWeight::Regular,
            500 => FontWeight::Medium,
            600 => FontWeight::SemiBold,
            700 => FontWeight::Bold,
            800 => FontWeight::ExtraBold,
            900 => FontWeight::Black,
            950 => FontWeight::ExtraBlack,
            _ => FontWeight::Unknown(v),
        }
    }

    /// Every code survives the trip through a weight and back.
    pub proof fn lemma_code_round_trip(v: u32)
        ensures
            Self::of_code(v).code() == v,
            Self::of_code(v).is_canonical(),
    {
    }

    /// A weight survives the trip through its code and back exactly when
    /// it is canonical.
    pub proof fn lemma_weight_round_trip(w: FontWeight)
        ensures
            Self::of_code(w.code()) == w <==> w.is_canonical(),
    {
    }
}

/// Width class of a font face. Mirrors the native stretch scale, whose
/// codes run from 0 to 9.
#[derive(PartialEq, Eq, Structural, Debug, Clone, Copy)]
pub enum FontStretch {
    Undefined,
    UltraCondensed,
    ExtraCondensed,
    Condensed,
    SemiCondensed,
    Normal,
    SemiExpanded,
    Expanded,
    ExtraExpanded,
    UltraExpanded,
}

impl FontStretch {
    /// The native code of a stretch: its position in the scale.
    pub open spec fn code(self) -> u32 {
        match self {
            FontStretch::Undefined => 0,
            FontStretch::UltraCondensed => 1,
            FontStretch::ExtraCondensed => 2,
            FontStretch::Condensed => 3,
            FontStretch::SemiCondensed => 4,
            FontStretch::Normal => 5,
            FontStretch::SemiExpanded => 6,
            FontStretch::Expanded => 7,
            FontStretch::ExtraExpanded => 8,
            FontStretch::UltraExpanded => 9,
        }
    }

    /// Whether a native code stands for a stretch.
    pub open spec fn is_code(v: u32) -> bool {
        v <= 9
    }

    /// The stretch that a native code stands for.
    pub open spec fn of_code(v: u32) -> FontStretch
        recommends
            Self::is_code(v),
    {
        if v == 0 {
            FontStretch::Undefined
        } else if v == 1 {
            FontStretch::UltraCondensed
        } else if v == 2 {
            FontStretch::ExtraCondensed
        } else if v == 3 {
            FontStretch::Condensed
        } else if v == 4 {
            FontStretch::SemiCondensed
        } else if v == 5 {
            FontStretch::Normal
        } else if v == 6 {
            FontStretch::SemiExpanded
        } else if v == 7 {
            FontStretch::Expanded
        } else if v == 8 {
            FontStretch::ExtraExpanded
        } else {
            FontStretch::UltraExpanded
        }
    }

    pub fn to_u32(&self) -> (code: u32)
        ensures
            code == self.code(),
            Self::is_code(code),
    {
        match self {
            FontStretch::Undefined => 0,
            FontStretch::UltraCondensed => 1,
            FontStretch::ExtraCondensed => 2,
            FontStretch::Condensed => 3,
            FontStretch::SemiCondensed => 4,
            FontStretch::Normal => 5,
            FontStretch::SemiExpanded => 6,
            FontStretch::Expanded => 7,
            FontStretch::ExtraExpanded => 8,
            FontStretch::UltraExpanded => 9,
        }
    }

    /// Reads a stretch from its native code. A code above 9 stands for no
    /// stretch and is not accepted.
    pub fn from_u32(v: u32) -> (stretch: FontStretch)
        requires
            Self::is_code(v),
        ensures
            stretch == Self::of_code(v),
            stretch.code() == v,
    {
        match v {
            0 => FontStretch::Undefined,
            1 => FontStretch::UltraCondensed,
            2 => FontStretch::ExtraCondensed,
            3 => FontStretch::Condensed,
            4 => FontStretch::SemiCondensed,
            5 => FontStretch::Normal,
            6 => FontStretch::SemiExpanded,
            7 => FontStretch::Expanded,
            8 => FontStretch::ExtraExpanded,
            _ => FontStretch::UltraExpanded,
        }
    }

    /// Codes and stretches correspond one to one.
    pub proof fn lemma_round_trip(s: FontStretch, v: u32)
        ensures
            Self::is_code(s.code()),
            Self::of_code(s.code()) == s,
            Self::is_code(v) ==> Self::of_code(v).code() == v,
    {
    }
}

/// Slant of a font face. Mirrors the native style codes 0 to 2.
#[derive(PartialEq, Eq, Structural, Debug, Clone, Copy)]
pub enum FontStyle {
    Normal,
    Oblique,
    Italic,
}

impl FontStyle {
    /// The native code of a style.
    pub open spec fn code(self) -> u32 {
        match self {
            FontStyle::Normal => 0,
            FontStyle::Oblique => 1,
            FontStyle::Italic => 2,
        }
    }

    /// Whether a native code stands for a style.
    pub open spec fn is_code(v: u32) -> bool {
        v <= 2
    }

    /// The style that a native code stands for.
    pub open spec fn of_code(v: u32) -> FontStyle
        recommends
            Self::is_code(v),
    {
        if v == 0 {
            FontStyle::Normal
        } else if v == 1 {
            FontStyle::Oblique
        } else {
            FontStyle::Italic
        }
    }

    pub fn to_u32(&self) -> (code: u32)
        ensures
            code == self.code(),
            Self::is_code(code),
    {
        match self {
            FontStyle::Normal => 0,
            FontStyle::Oblique => 1,
            FontStyle::Italic => 2,
        }
    }

    /// Reads a style from its native code. A code above 2 stands for no
    /// style and is not accepted.
    pub fn from_u32(v: u32) -> (style: FontStyle)
        requires
            Self::is_code(v),
        ensures
            style == Self::of_code(v),
            style.code() == v,
    {
        match v {
            0 => FontStyle::Normal,
            1 => FontStyle::Oblique,
            _ => FontStyle::Italic,
        }
    }

    /// Codes and styles correspond one to one.
    pub proof fn lemma_round_trip(s: FontStyle, v: u32)
        ensures
            Self::is_code(s.code()),
            Self::of_code(s.code()) == s,
            Self::is_code(v) ==> Self::of_code(v).code() == v,
    {
    }
}

/// Algorithmic emboldening and slanting applied to a face. Mirrors the
/// native simulation flags: bit 0 is bold, bit 1 is oblique.
#[derive(PartialEq, Eq, Structural, Debug, Clone, Copy)]
pub enum FontSimulations {
    NoSimulations,
    Bold,
    Oblique,
    BoldOblique,
}

impl FontSimulations {
    /// The native flag word of a simulation.
    pub open spec fn code(self) -> i32 {
        match self {
            FontSimulations::NoSimulations => 0,
            FontSimulations::Bold => 1,
            FontSimulations::Oblique => 2,
            FontSimulations::BoldOblique => 3,
        }
    }

    /// The simulation that a native flag word stands for. A word outside
    /// 0 to 3 is read as no simulation.
    pub open spec fn of_code(v: i32) -> FontSimulations {
        if v == 1 {
            FontSimulations::Bold
        } else if v == 2 {
            FontSimulations::Oblique
        } else if v == 3 {
            FontSimulations::BoldOblique
        } else {
            FontSimulations::NoSimulations
        }
    }

    /// The native flag word of this simulation.
    pub fn to_code(&self) -> (code: i32)
        ensures
            code == self.code(),
            0 <= code <= 3,
    {
        match self {
            FontSimulations::NoSimulations => 0,
            FontSimulations::Bold => 1,
            FontSimulations::Oblique => 2,
            FontSimulations::BoldOblique => 3,
        }
    }

    /// Reads a simulation from a native flag word, falling back to `NoSimulations`
    /// for a word that names no combination.
    pub fn from_code(v: i32) -> (simulations: FontSimulations)
        ensures
            simulations == Self::of_code(v),
            0 <= v <= 3 ==> simulations.code() == v,
            !(0 <= v <= 3) ==> simulations == FontSimulations::NoSimulations,
    {
        match v {
            1 => FontSimulations::Bold,
            2 => FontSimulations::Oblique,
            3 => FontSimulations::BoldOblique,
            _ => FontSimulations::NoSimulations,
        }
    }

    /// A simulation survives the trip through its flag word.
    pub proof fn lemma_round_trip(s: FontSimulations)
        ensures
            Self::of_code(s.code()) == s,
    {
    }
}

/// What identifies a font within a collection.
#[derive(PartialEq, Debug, Clone)]
pub struct FontDescriptor {
    pub family_name: String,
    pub weight: FontWeight,
    pub stretch: FontStretch,
    pub style: FontStyle,
}

impl FontDescriptor {
    /// Whether a font with the given attributes is exactly the one this
    /// descriptor asks for, family aside.
    pub open spec fn matches_attributes(
        self,
        weight: FontWeight,
        stretch: FontStretch,
        style: FontStyle,
    ) -> bool {
        weight == self.weight && stretch == self.stretch && style == self.style
    }

    /// Tells whether the best match that a family offered is an exact
    /// one. A lookup by descriptor accepts exact matches only.
    pub fn is_exact_match(&self, weight: FontWeight, stretch: FontStretch, style: FontStyle) -> (exact:
        bool)
        ensures
            exact == self.matches_attributes(weight, stretch, style),
    {
        weight == self.weight && stretch == self.stretch && style == self.style
    }
}

} // verus!
