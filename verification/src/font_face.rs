//! What a font face decides for itself: the kind of face behind a native
//! code, which inputs a glyph run outline accepts, and which axes of a
//! variable font can vary.

use vstd::prelude::*;

verus! {

/// The file format of a font face.
#[derive(PartialEq, Eq, Structural, Debug, Clone, Copy)]
pub enum FontFaceType {
    Unknown,
    Cff,
    RawCff,
    TrueType,
    TrueTypeCollection,
    Type1,
    Vector,
    Bitmap,
}

impl FontFaceType {
    /// The kind of face that a native face-type code stands for. A code
    /// that names no kind stands for `Unknown`.
    pub open spec fn of_code(code: i32) -> FontFaceType {
        if code == 0 {
            FontFaceType::Cff
        } else if code == 1 {
            FontFaceType::TrueType
        } else if code == 2 {
            FontFaceType::TrueTypeCollection
        } else if code == 3 {
            FontFaceType::Type1
        } else if code == 4 {
            FontFaceType::Vector
        } else if code == 5 {
            FontFaceType::Bitmap
        } else if code == 7 {
            FontFaceType::RawCff
        } else {
            FontFaceType::Unknown
        }
    }

    /// Reads the kind of face from its native code.
    pub fn from_code(code: i32) -> (face_type: FontFaceType)
        ensures
            face_type == Self::of_code(code),
    {
        match code {
            0 => FontFaceType::Cff,
            1 => FontFaceType::TrueType,
            2 => FontFaceType::TrueTypeCollection,
            3 => FontFaceType::Type1,
            4 => FontFaceType::Vector,
            5 => FontFaceType::Bitmap,
            7 => FontFaceType::RawCff,
            _ => FontFaceType::Unknown,
        }
    }
}

/// Why a glyph run outline could not be produced.
#[derive(PartialEq, Eq, Structural, Debug, Clone, Copy)]
pub enum GlyphRunOutlineError {
    /// The advances or the offsets do not match the glyphs in number.
    InvalidInput,
    /// The system refused, with this status code.
    Win32Error(i32),
}

/// The lowercase hexadecimal digit for a value below 16.
pub open spec fn hex_digit(d: nat) -> char {
    if d == 0 {
        '0'
    } else if d == 1 {
        '1'
    } else if d == 2 {
        '2'
    } else if d == 3 {
        '3'
    } else if d == 4 {
        '4'
    } else if d == 5 {
        '5'
    } else if d == 6 {
        '6'
    } else if d == 7 {
        '7'
    } else if d == 8 {
        '8'
    } else if d == 9 {
        '9'
    } else if d == 10 {
        'a'
    } else if d == 11 {
        'b'
    } else if d == 12 {
        'c'
    } else if d == 13 {
        'd'
    } else if d == 14 {
        'e'
    } else {
        'f'
    }
}

/// A number in lowercase hexadecimal, most significant digit first and
/// without leading zeros; zero is the single digit `0`.
pub open spec fn hex_digits(n: nat) -> Seq<char>
    decreases n,
{
    if n < 16 {
        seq![hex_digit(n)]
    } else {
        hex_digits(n / 16).push(hex_digit(n % 16))
    }
}

/// A status code as it is shown: `0x`, then the hexadecimal digits of
/// its 32-bit two's complement pattern.
pub open spec fn status_text(code: i32) -> Seq<char> {
    seq!['0', 'x'] + hex_digits(
        if code >= 0 {
            code as nat
        } else {
            (code + 0x1_0000_0000) as nat
        },
    )
}

fn hex_digit_char(d: u32) -> (c: char)
    requires
        d < 16,
    ensures
        c == hex_digit(d as nat),
{
    match d {
        0 => '0',
        1 => '1',
        2 => '2',
        3 => '3',
        4 => '4',
        5 => '5',
        6 => '6',
        7 => '7',
        8 => '8',
        9 => '9',
        10 => 'a',
        11 => 'b',
        12 => 'c',
        13 => 'd',
        14 => 'e',
        _ => 'f',
    }
}

fn push_hex(out: &mut String, n: u64)
    ensures
        final(out)@ == old(out)@ + hex_digits(n as nat),
    decreases n,
{
    if n >= 16 {
        push_hex(out, n / 16);
    }
    out.push(hex_digit_char((n % 16) as u32));
}

impl GlyphRunOutlineError {
    /// The text that describes an error.
    pub open spec fn text(self) -> Seq<char> {
        match self {
            GlyphRunOutlineError::InvalidInput => "Invalid input"@,
            GlyphRunOutlineError::Win32Error(code) => status_text(code),
        }
    }

    /// Describes the error for display: `Invalid input`, or the status
    /// code of the system in hexadecimal, such as `0x80004005`.
    pub fn message(&self) -> (text: String)
        ensures
            text@ == self.text(),
    {
        match self {
            GlyphRunOutlineError::InvalidInput => "Invalid input".to_owned(),
            GlyphRunOutlineError::Win32Error(code) => {
                let mut out = String::new();
                out.push('0');
                out.push('x');
                let pattern: u64 = if *code >= 0 {
                    *code as u64
                } else {
                    (*code as i64 + 0x1_0000_0000) as u64
                };
                push_hex(&mut out, pattern);
                out
            },
        }
    }
}

/// Whether the optional per-glyph arrays of a glyph run agree in length
/// with its glyph indices. An absent array agrees.
pub open spec fn glyph_run_lengths_agree(
    glyph_count: nat,
    advances: Option<nat>,
    offsets: Option<nat>,
) -> bool {
    &&& advances matches Some(n) ==> n == glyph_count
    &&& offsets matches Some(n) ==> n == glyph_count
}

/// Checks a glyph run before its outline is asked for: `glyph_count` is
/// the number of glyph indices, `advances` and `offsets` are the lengths
/// of the two optional arrays. Fails with `InvalidInput` exactly when an
/// array that is present differs in length from the glyph indices.
pub fn check_glyph_run(glyph_count: usize, advances: Option<usize>, offsets: Option<usize>) -> (checked:
    Result<(), GlyphRunOutlineError>)
    ensures
        checked is Ok <==> glyph_run_lengths_agree(
            glyph_count as nat,
            match advances {
                Some(n) => Some(n as nat),
                None => None,
            },
            match offsets {
                Some(n) => Some(n as nat),
                None => None,
            },
        ),
        checked matches Err(e) ==> e == GlyphRunOutlineError::InvalidInput,
{
    if let Some(n) = advances {
        if n != glyph_count {
            return Err(GlyphRunOutlineError::InvalidInput);
        }
    }
    if let Some(n) = offsets {
        if n != glyph_count {
            return Err(GlyphRunOutlineError::InvalidInput);
        }
    }
    Ok(())
}

/// Turns the outcome of the native outline call into the library's
/// result: a status code of failure becomes `Win32Error` of that code.
pub fn glyph_run_outline_result(native: Result<(), i32>) -> (outcome: Result<
    (),
    GlyphRunOutlineError,
>)
    ensures
        outcome == match native {
            Ok(_) => Ok::<(), GlyphRunOutlineError>(()),
            Err(code) => Err(GlyphRunOutlineError::Win32Error(code)),
        },
{
    match native {
        Ok(_) => Ok(()),
        Err(code) => Err(GlyphRunOutlineError::Win32Error(code)),
    }
}

/// Whether the attribute flags of a font axis say that the axis can
/// vary: bit 0 of the native flag word.
pub open spec fn is_variable_axis(attributes: u32) -> bool {
    attributes & 1 != 0
}

/// Whether `picked` lists, in increasing order and without omission, the
/// positions of the axes that can vary.
pub open spec fn is_variable_axis_selection(attributes: Seq<u32>, picked: Seq<usize>) -> bool {
    &&& forall|k: int|
        0 <= k < picked.len() ==> (#[trigger] picked[k]) < attributes.len() && is_variable_axis(
            attributes[picked[k] as int],
        )
    &&& forall|j: int, k: int| 0 <= j < k < picked.len() ==> picked[j] < picked[k]
    &&& forall|i: int|
        0 <= i < attributes.len() && is_variable_axis(#[trigger] attributes[i])
            ==> exists|k: int| 0 <= k < picked.len() && picked[k] == i
}

/// Picks the axes of a variable font that can vary. `attributes` holds
/// the native attribute flags of each axis, in axis order; the result
/// holds the positions of the variable axes, in the same order.
pub fn variable_axis_indices(attributes: &Vec<u32>) -> (picked: Vec<usize>)
    ensures
        is_variable_axis_selection(attributes@, picked@),
{
    let mut picked: Vec<usize> = Vec::new();
    let mut i: usize = 0;
    while i < attributes.len()
        invariant
            i <= attributes.len(),
            forall|k: int|
                0 <= k < picked.len() ==> (#[trigger] picked[k]) < i && is_variable_axis(
                    attributes[picked[k] as int],
                ),
            forall|j: int, k: int| 0 <= j < k < picked.len() ==> picked[j] < picked[k],
            forall|m: int|
                0 <= m < i && is_variable_axis(#[trigger] attributes[m]) ==> exists|k: int|
                    0 <= k < picked.len() && picked[k] == m,
        decreases attributes.len() - i,
    {
        if attributes[i] & 1 != 0 {
            let ghost before = picked@;
            picked.push(i);
            assert forall|m: int|
                0 <= m < i + 1 && is_variable_axis(#[trigger] attributes[m]) implies exists|k: int|
                0 <= k < picked.len() && picked[k] == m by {
                if m < i {
                    let k = choose|k: int| 0 <= k < before.len() && before[k] == m;
                    assert(picked[k] == m);
                } else {
                    assert(picked[before.len() as int] == m);
                }
            }
        }
        i += 1;
    }
    picked
}

/// The selection of variable axes is unique: two selections for the same
/// attributes are the same list.
pub proof fn lemma_variable_axis_selection_unique(
    attributes: Seq<u32>,
    a: Seq<usize>,
    b: Seq<usize>,
)
    requires
        is_variable_axis_selection(attributes, a),
        is_variable_axis_selection(attributes, b),
    ensures
        a == b,
    decreases attributes.len(),
{
    if a.len() == 0 || b.len() == 0 {
        if a.len() > 0 {
            let i = a[0] as int;
            assert(is_variable_axis(attributes[a[0] as int]));
            let k = choose|k: int| 0 <= k < b.len() && b[k] == i;
        }
        if b.len() > 0 {
            let i = b[0] as int;
            assert(is_variable_axis(attributes[b[0] as int]));
            let k = choose|k: int| 0 <= k < a.len() && a[k] == i;
        }
        assert(a =~= b);
    } else {
        let la = a.last();
        let lb = b.last();
        assert(is_variable_axis(attributes[a[a.len() - 1] as int]));
        assert(is_variable_axis(attributes[b[b.len() - 1] as int]));
        let ka = choose|k: int| 0 <= k < b.len() && b[k] == la as int;
        let kb = choose|k: int| 0 <= k < a.len() && a[k] == lb as int;
        assert(la == lb) by {
            if ka < b.len() - 1 {
                assert(b[ka] < b[b.len() - 1]);
            }
            if kb < a.len() - 1 {
                assert(a[kb] < a[a.len() - 1]);
            }
        }
        let cut = attributes.take(la as int);
        let a0 = a.drop_last();
        let b0 = b.drop_last();
        assert(is_variable_axis_selection(cut, a0)) by {
            assert forall|k: int| 0 <= k < a0.len() implies (#[trigger] a0[k]) < cut.len()
                && is_variable_axis(cut[a0[k] as int]) by {
                assert(a[k] < a[a.len() - 1]);
                assert(is_variable_axis(attributes[a[k] as int]));
            }
            assert forall|i: int|
                0 <= i < cut.len() && is_variable_axis(#[trigger] cut[i]) implies exists|k: int|
                0 <= k < a0.len() && a0[k] == i by {
                assert(is_variable_axis(attributes[i]));
                let k = choose|k: int| 0 <= k < a.len() && a[k] == i;
                assert(a0[k] == i);
            }
        }
        assert(is_variable_axis_selection(cut, b0)) by {
            assert forall|k: int| 0 <= k < b0.len() implies (#[trigger] b0[k]) < cut.len()
                && is_variable_axis(cut[b0[k] as int]) by {
                assert(b[k] < b[b.len() - 1]);
                assert(is_variable_axis(attributes[b[k] as int]));
            }
            assert forall|i: int|
                0 <= i < cut.len() && is_variable_axis(#[trigger] cut[i]) implies exists|k: int|
                0 <= k < b0.len() && b0[k] == i by {
                assert(is_variable_axis(attributes[i]));
                let k = choose|k: int| 0 <= k < b.len() && b[k] == i;
                assert(b0[k] == i);
            }
        }
        lemma_variable_axis_selection_unique(cut, a0, b0);
        assert(a =~= a0.push(la));
        assert(b =~= b0.push(lb));
    }
}

/// The kerning adjustment between two glyphs, from what the system
/// reported for the pair: the first of the two adjustments where the
/// face offers kerning, zero where it offers none.
pub fn kerning_adjustment(reported: Option<Result<(i32, i32), i32>>) -> (adjustment: Result<
    i32,
    i32,
>)
    ensures
        adjustment == match reported {
            Some(Ok(pair)) => Ok::<i32, i32>(pair.0),
            Some(Err(code)) => Err::<i32, i32>(code),
            None => Ok::<i32, i32>(0),
        },
{
    match reported {
        Some(Ok(pair)) => Ok(pair.0),
        Some(Err(code)) => Err(code),
        None => Ok(0),
    }
}

/// What a face says of its variations, where it offers the interface
/// that knows of them.
#[derive(PartialEq, Eq, Structural, Debug, Clone, Copy)]
pub struct VariationReport {
    /// Whether the face has variations.
    pub has_variations: bool,
    /// The number of axis values of the face.
    pub axis_count: u32,
}

/// The number of axis values to read from a face: that of its report,
/// provided that the face offers the interface (`report` is `Some`), has
/// variations and has at least one axis value. Otherwise there is
/// nothing to read, and the variations of the face are the empty list.
pub open spec fn axis_values_to_read(report: Option<VariationReport>) -> Option<usize> {
    match report {
        Some(r) => if r.has_variations && r.axis_count != 0 {
            Some(r.axis_count as usize)
        } else {
            None
        },
        None => None,
    }
}

/// Decides whether the axis values of a face are read, and how many.
pub fn variation_axis_count(report: Option<VariationReport>) -> (count: Option<usize>)
    ensures
        count == axis_values_to_read(report),
        count matches Some(n) ==> n > 0,
{
    match report {
        Some(r) => {
            if r.has_variations && r.axis_count != 0 {
                Some(r.axis_count as usize)
            } else {
                None
            }
        },
        None => None,
    }
}

} // verus!
