//! Font metrics and the identifiers of a font's informational strings.

use vstd::prelude::*;

verus! {

/// Design-unit metrics that every face reports.
#[derive(PartialEq, Eq, Structural, Debug, Clone, Copy)]
pub struct FontMetrics0 {
    pub design_units_per_em: u16,
    pub ascent: u16,
    pub descent: u16,
    pub line_gap: i16,
    pub cap_height: u16,
    pub x_height: u16,
    pub underline_position: i16,
    pub underline_thickness: u16,
    pub strikethrough_position: i16,
    pub strikethrough_thickness: u16,
}

/// The extended metrics of newer systems: the basic metrics and, beside
/// them, the glyph box and the placement of subscripts and superscripts.
#[derive(PartialEq, Eq, Structural, Debug, Clone, Copy)]
pub struct FontMetrics1 {
    pub base: FontMetrics0,
    pub glyph_box_left: i16,
    pub glyph_box_top: i16,
    pub glyph_box_right: i16,
    pub glyph_box_bottom: i16,
    pub subscript_position_x: i16,
    pub subscript_position_y: i16,
    pub subscript_size_x: i16,
    pub subscript_size_y: i16,
    pub superscript_position_x: i16,
    pub superscript_position_y: i16,
    pub superscript_size_x: i16,
    pub superscript_size_y: i16,
    pub has_typographic_metrics: bool,
}

/// The metrics of a font, in the richest form that the system offers.
#[derive(PartialEq, Eq, Structural, Debug, Clone, Copy)]
pub enum FontMetrics {
    /// Basic metrics only.
    Metrics0(FontMetrics0),
    /// Extended metrics.
    Metrics1(FontMetrics1),
}

impl FontMetrics {
    /// The basic metrics that either form carries.
    pub open spec fn base(self) -> FontMetrics0 {
        match self {
            FontMetrics::Metrics0(metrics) => metrics,
            FontMetrics::Metrics1(metrics) => metrics.base,
        }
    }

    /// Picks the richest form on offer: the extended metrics where the
    /// system gave them, the basic ones otherwise.
    pub fn select(basic: FontMetrics0, extended: Option<FontMetrics1>) -> (metrics: FontMetrics)
        ensures
            metrics == match extended {
                Some(m) => FontMetrics::Metrics1(m),
                None => FontMetrics::Metrics0(basic),
            },
    {
        match extended {
            Some(m) => FontMetrics::Metrics1(m),
            None => FontMetrics::Metrics0(basic),
        }
    }

    /// Reduces the metrics to their basic form, dropping what the extended
    /// form adds.
    pub fn metrics0(self) -> (basic: FontMetrics0)
        ensures
            basic == self.base(),
    {
        match self {
            FontMetrics::Metrics0(metrics) => metrics,
            FontMetrics::Metrics1(metrics) => metrics.base,
        }
    }
}

/// Names one of the informational strings that a font may carry.
#[derive(PartialEq, Eq, Structural, Debug, Clone, Copy)]
pub enum InformationalStringId {
    FullName,
    PostscriptName,
    PostscriptCidName,
    CopyrightNotice,
    Description,
    Designer,
    DesignerUrl,
    DesignScriptLanguageTag,
    VendorUrl,
    LicenseDescription,
    LicenseInfoUrl,
    Manufacturer,
    PreferredFamilyNames,
    PreferredSubfamilyNames,
    SampleText,
    SupportedScriptLanguageTag,
    Trademark,
    Version,
    Win32FamilyNames,
    Win32SubfamilyNames,
    WwsFamilyName,
}

impl InformationalStringId {
    /// The native code of an identifier.
    pub open spec fn code(self) -> u32 {
        match self {
            InformationalStringId::CopyrightNotice => 1,
            InformationalStringId::Version => 2,
            InformationalStringId::Trademark => 3,
            InformationalStringId::Manufacturer => 4,
            InformationalStringId::Designer => 5,
            InformationalStringId::DesignerUrl => 6,
            InformationalStringId::Description => 7,
            InformationalStringId::VendorUrl => 8,
            InformationalStringId::LicenseDescription => 9,
            InformationalStringId::LicenseInfoUrl => 10,
            InformationalStringId::Win32FamilyNames => 11,
            InformationalStringId::Win32SubfamilyNames => 12,
            InformationalStringId::PreferredFamilyNames => 13,
            InformationalStringId::PreferredSubfamilyNames => 14,
            InformationalStringId::SampleText => 15,
            InformationalStringId::FullName => 16,
            InformationalStringId::PostscriptName => 17,
            InformationalStringId::PostscriptCidName => 18,
            InformationalStringId::WwsFamilyName => 19,
            InformationalStringId::DesignScriptLanguageTag => 20,
            InformationalStringId::SupportedScriptLanguageTag => 21,
        }
    }

    /// Whether a native code names an informational string. Code 0, the
    /// native "no string", names none.
    pub open spec fn is_code(v: u32) -> bool {
        1 <= v <= 21
    }

    /// The native code of this identifier.
    pub fn to_code(&self) -> (code: u32)
        ensures
            code == self.code(),
            Self::is_code(code),
    {
        match self {
            InformationalStringId::CopyrightNotice => 1,
            InformationalStringId::Version => 2,
            InformationalStringId::Trademark => 3,
            InformationalStringId::Manufacturer => 4,
            InformationalStringId::Designer => 5,
            InformationalStringId::DesignerUrl => 6,
            InformationalStringId::Description => 7,
            InformationalStringId::VendorUrl => 8,
            InformationalStringId::LicenseDescription => 9,
            InformationalStringId::LicenseInfoUrl => 10,
            InformationalStringId::Win32FamilyNames => 11,
            InformationalStringId::Win32SubfamilyNames => 12,
            InformationalStringId::PreferredFamilyNames => 13,
            InformationalStringId::PreferredSubfamilyNames => 14,
            InformationalStringId::SampleText => 15,
            InformationalStringId::FullName => 16,
            InformationalStringId::PostscriptName => 17,
            InformationalStringId::PostscriptCidName => 18,
            InformationalStringId::WwsFamilyName => 19,
            InformationalStringId::DesignScriptLanguageTag => 20,
            InformationalStringId::SupportedScriptLanguageTag => 21,
        }
    }

    /// Reads an identifier from its native code. A code that names no
    /// string is not accepted.
    pub fn from_code(v: u32) -> (id: InformationalStringId)
        requires
            Self::is_code(v),
        ensures
            id.code() == v,
    {
        match v {
            1 => InformationalStringId::CopyrightNotice,
            2 => InformationalStringId::Version,
            3 => InformationalStringId::Trademark,
            4 => InformationalStringId::Manufacturer,
            5 => InformationalStringId::Designer,
            6 => InformationalStringId::DesignerUrl,
            7 => InformationalStringId::Description,
            8 => InformationalStringId::VendorUrl,
            9 => InformationalStringId::LicenseDescription,
            10 => InformationalStringId::LicenseInfoUrl,
            11 => InformationalStringId::Win32FamilyNames,
            12 => InformationalStringId::Win32SubfamilyNames,
            13 => InformationalStringId::PreferredFamilyNames,
            14 => InformationalStringId::PreferredSubfamilyNames,
            15 => InformationalStringId::SampleText,
            16 => InformationalStringId::FullName,
            17 => InformationalStringId::PostscriptName,
            18 => InformationalStringId::PostscriptCidName,
            19 => InformationalStringId::WwsFamilyName,
            20 => InformationalStringId::DesignScriptLanguageTag,
            _ => InformationalStringId::SupportedScriptLanguageTag,
        }
    }

    /// No two identifiers share a code, so the code determines the
    /// identifier.
    pub proof fn lemma_code_injective(a: InformationalStringId, b: InformationalStringId)
        ensures
            a.code() == b.code() <==> a == b,
    {
    }
}

} // verus!
