//! The answers of a text analysis source: which part of the text lies
//! at or before a position, and the locale name in the form that the
//! system reads.

use crate::helpers::{encode_utf16, utf16_encode, E_INVALIDARG};
use vstd::prelude::*;

verus! {

/// A run of code units within the text of a source.
#[derive(PartialEq, Eq, Structural, Debug, Clone, Copy)]
pub struct TextRange {
    /// Where the run starts.
    pub start: u32,
    /// How many code units it holds.
    pub len: u32,
}

/// The number of code units in the buffer that carries a locale name.
pub const LOCALE_NAME_CAPACITY: usize = 32;

/// The text from `position` to the end of a text of `text_len` code
/// units; `None` for a position at or beyond the end.
pub open spec fn range_at_position(text_len: u32, position: u32) -> Option<TextRange> {
    if position >= text_len {
        None
    } else {
        Some(TextRange { start: position, len: (text_len - position) as u32 })
    }
}

/// The text before `position` in a text of `text_len` code units: all
/// of it from the start; `None` for position zero and for a position
/// beyond the end.
pub open spec fn range_before_position(text_len: u32, position: u32) -> Option<TextRange> {
    if position == 0 || position > text_len {
        None
    } else {
        Some(TextRange { start: 0, len: position })
    }
}

/// Finds the text from `position` to the end of a text of `text_len`
/// code units.
pub fn text_at_position(text_len: u32, position: u32) -> (range: Option<TextRange>)
    ensures
        range == range_at_position(text_len, position),
{
    if position >= text_len {
        None
    } else {
        Some(TextRange { start: position, len: text_len - position })
    }
}

/// Finds the text before `position` in a text of `text_len` code units.
pub fn text_before_position(text_len: u32, position: u32) -> (range: Option<TextRange>)
    ensures
        range == range_before_position(text_len, position),
{
    if position == 0 || position > text_len {
        None
    } else {
        Some(TextRange { start: 0, len: position })
    }
}

/// The two ranges meet at the position: inside the text both exist, the
/// text before ends where the text at the position starts, and together
/// they are the whole text. At the end of the text only the text before
/// exists, and it is the whole text; at the start only the text at the
/// position, and it is the whole text.
pub proof fn lemma_ranges_meet(text_len: u32, position: u32)
    requires
        position <= text_len,
        text_len > 0,
    ensures
        0 < position < text_len ==> {
            let before = range_before_position(text_len, position)->0;
            let at = range_at_position(text_len, position)->0;
            &&& range_before_position(text_len, position) is Some
            &&& range_at_position(text_len, position) is Some
            &&& before.start + before.len == at.start
            &&& before.len + at.len == text_len
        },
        position == text_len ==> range_at_position(text_len, position) is None
            && range_before_position(text_len, position) == Some(
            TextRange { start: 0, len: text_len },
        ),
        position == 0 ==> range_before_position(text_len, position) is None && range_at_position(
            text_len,
            position,
        ) == Some(TextRange { start: 0, len: text_len }),
{
}

/// The length of the text to which the number substitution applies,
/// from `position` on: the rest of the text. A position at or beyond the
/// end is refused as an invalid argument.
pub fn number_substitution_len(text_len: u32, position: u32) -> (len: Result<u32, i32>)
    ensures
        len == (if position >= text_len {
            Err(E_INVALIDARG)
        } else {
            Ok((text_len - position) as u32)
        }),
{
    if position >= text_len {
        Err(E_INVALIDARG)
    } else {
        Ok(text_len - position)
    }
}

/// A locale name as the system reads it: the name in UTF-16 in a buffer
/// of 32 code units, cut so that the last code unit is always zero, and
/// zero after the name.
pub open spec fn locale_name_units(locale: Seq<char>) -> Seq<u16> {
    let wide = utf16_encode(locale);
    Seq::new(
        LOCALE_NAME_CAPACITY as nat,
        |i: int|
            if i < LOCALE_NAME_CAPACITY - 1 && i < wide.len() {
                wide[i]
            } else {
                0u16
            },
    )
}

/// Lays a locale name out in the buffer that the system reads.
pub fn locale_name_buffer(locale: &str) -> (buffer: [u16; 32])
    ensures
        buffer@ == locale_name_units(locale@),
        buffer[LOCALE_NAME_CAPACITY - 1] == 0,
{
    let wide = encode_utf16(locale);
    let mut buffer: [u16; 32] = [0;32];
    let mut i: usize = 0;
    while i < LOCALE_NAME_CAPACITY - 1 && i < wide.len()
        invariant
            i <= LOCALE_NAME_CAPACITY - 1,
            i <= wide.len(),
            wide@ == utf16_encode(locale@),
            forall|k: int| 0 <= k < i ==> buffer[k] == wide[k],
            forall|k: int| i <= k < LOCALE_NAME_CAPACITY ==> buffer[k] == 0,
        decreases wide.len() - i,
    {
        buffer[i] = wide[i];
        i += 1;
    }
    assert(buffer@ =~= locale_name_units(locale@));
    buffer
}

} // verus!
