//! Strings on their way to and from the system: UTF-16 encoding and
//! decoding, and the choice of a locale among localized strings.

use vstd::prelude::*;

verus! {

/// `String::push` appends one character to the string and leaves the
/// rest as it was.
pub assume_specification[ String::push ](s: &mut String, ch: char)
    ensures
        final(s)@ == old(s)@.push(ch),
;

/// `char::from_u32` gives the character with the given scalar value, and
/// `None` exactly for the values that are no scalar value: the
/// surrogates and what lies above `0x10FFFF`.
pub assume_specification[ char::from_u32 ](i: u32) -> (c: Option<char>)
    ensures
        c is Some <==> (i <= 0xD7FF || 0xE000 <= i <= 0x10FFFF),
        c matches Some(ch) ==> ch as u32 == i,
;

/// The UTF-16 code units of one character: the character itself below
/// `0x10000`, a high and a low surrogate above.
pub open spec fn utf16_units(c: char) -> Seq<u16> {
    let v = c as u32;
    if v < 0x10000 {
        seq![v as u16]
    } else {
        seq![(0xD800 + (v - 0x10000) / 0x400) as u16, (0xDC00 + (v - 0x10000) % 0x400) as u16]
    }
}

/// The UTF-16 encoding of a string: the code units of its characters,
/// one after the other.
pub open spec fn utf16_encode(s: Seq<char>) -> Seq<u16>
    decreases s.len(),
{
    if s.len() == 0 {
        Seq::empty()
    } else {
        utf16_encode(s.drop_last()) + utf16_units(s.last())
    }
}

fn push_utf16_units(out: &mut Vec<u16>, c: char)
    ensures
        final(out)@ == old(out)@ + utf16_units(c),
{
    let v: u32 = c as u32;
    if v < 0x10000 {
        out.push(v as u16);
    } else {
        let w: u32 = v - 0x10000;
        assert(w < 0x100000);
        out.push((0xD800 + w / 0x400) as u16);
        out.push((0xDC00 + w % 0x400) as u16);
    }
}

/// Encodes a string in UTF-16.
pub fn encode_utf16(s: &str) -> (units: Vec<u16>)
    ensures
        units@ == utf16_encode(s@),
{
    let mut units: Vec<u16> = Vec::new();
    for c in it: s.chars()
        invariant
            it.seq() == s@,
            units@ == utf16_encode(s@.take(it.index())),
    {
        assert(s@.take(it.index() + 1).drop_last() == s@.take(it.index()));
        push_utf16_units(&mut units, c);
    }
    assert(s@.take(s@.len() as int) == s@);
    units
}

/// Whether a code unit is the first half of a surrogate pair.
pub open spec fn is_high_surrogate(u: u16) -> bool {
    0xD800 <= u <= 0xDBFF
}

/// Whether a code unit is the second half of a surrogate pair.
pub open spec fn is_low_surrogate(u: u16) -> bool {
    0xDC00 <= u <= 0xDFFF
}

/// The character that a surrogate pair stands for.
pub open spec fn surrogate_pair_char(high: u16, low: u16) -> char {
    (0x10000 + (high - 0xD800) * 0x400 + (low - 0xDC00)) as char
}

/// The string that a sequence of UTF-16 code units stands for; `None`
/// where a surrogate stands without its partner.
pub open spec fn utf16_decode(units: Seq<u16>) -> Option<Seq<char>>
    decreases units.len(),
{
    if units.len() == 0 {
        Some(Seq::empty())
    } else if !is_high_surrogate(units[0]) && !is_low_surrogate(units[0]) {
        match utf16_decode(units.skip(1)) {
            Some(rest) => Some(seq![units[0] as char] + rest),
            None => None,
        }
    } else if is_high_surrogate(units[0]) && units.len() >= 2 && is_low_surrogate(units[1]) {
        match utf16_decode(units.skip(2)) {
            Some(rest) => Some(seq![surrogate_pair_char(units[0], units[1])] + rest),
            None => None,
        }
    } else {
        None
    }
}

/// The encoding of two strings joined is the two encodings joined.
pub proof fn lemma_utf16_encode_concat(a: Seq<char>, b: Seq<char>)
    ensures
        utf16_encode(a + b) == utf16_encode(a) + utf16_encode(b),
    decreases b.len(),
{
    if b.len() == 0 {
        assert(a + b == a);
    } else {
        assert((a + b).drop_last() == a + b.drop_last());
        assert((a + b).last() == b.last());
        lemma_utf16_encode_concat(a, b.drop_last());
    }
}

proof fn lemma_utf16_encode_front(c: char, rest: Seq<char>)
    ensures
        utf16_encode(seq![c] + rest) == utf16_units(c) + utf16_encode(rest),
{
    lemma_utf16_encode_concat(seq![c], rest);
    assert(seq![c].drop_last() == Seq::<char>::empty());
    assert(utf16_encode(seq![c]) == utf16_encode(Seq::<char>::empty()) + utf16_units(c));
}

/// Decoding undoes encoding: every string comes back from its encoding.
pub proof fn lemma_utf16_decode_encode(s: Seq<char>)
    ensures
        utf16_decode(utf16_encode(s)) == Some(s),
    decreases s.len(),
{
    if s.len() == 0 {
    } else {
        let c = s[0];
        let rest = s.skip(1);
        assert(s == seq![c] + rest);
        lemma_utf16_encode_front(c, rest);
        lemma_utf16_decode_encode(rest);
        let units = utf16_encode(s);
        let v = c as u32;
        vstd::utf8::char_is_scalar(c);
        vstd::utf8::char_u32_cast(c, v);
        if v < 0x10000 {
            assert(units[0] == v as u16);
            assert(units.skip(1) == utf16_encode(rest));
            assert((v as u16) as char == c);
        } else {
            let w = (v - 0x10000) as int;
            assert(0 <= w < 0x100000);
            assert(units[0] == (0xD800 + w / 0x400) as u16);
            assert(units[1] == (0xDC00 + w % 0x400) as u16);
            assert(units.skip(2) == utf16_encode(rest));
            assert(surrogate_pair_char(units[0], units[1]) == c);
        }
    }
}

/// What decodes to a string is the encoding of that string: no two
/// sequences of code units stand for the same string.
pub proof fn lemma_utf16_encode_decode(units: Seq<u16>)
    requires
        utf16_decode(units) is Some,
    ensures
        utf16_encode(utf16_decode(units)->0) == units,
    decreases units.len(),
{
    if units.len() == 0 {
    } else if !is_high_surrogate(units[0]) && !is_low_surrogate(units[0]) {
        let rest = units.skip(1);
        lemma_utf16_encode_decode(rest);
        let c = units[0] as char;
        lemma_utf16_encode_front(c, utf16_decode(rest)->0);
        assert(utf16_units(c) == seq![units[0]]);
        assert(seq![units[0]] + rest == units);
    } else {
        let rest = units.skip(2);
        lemma_utf16_encode_decode(rest);
        let c = surrogate_pair_char(units[0], units[1]);
        lemma_utf16_encode_front(c, utf16_decode(rest)->0);
        let w = (units[0] - 0xD800) * 0x400 + (units[1] - 0xDC00);
        assert(c as u32 == 0x10000 + w);
        assert(w / 0x400 == units[0] - 0xD800);
        assert(w % 0x400 == units[1] - 0xDC00);
        assert(utf16_units(c) == seq![units[0], units[1]]);
        assert(seq![units[0], units[1]] + rest == units);
    }
}

/// A sequence of code units is the encoding of a string exactly when it
/// decodes to that string.
pub proof fn lemma_utf16_decode_iff_encode(units: Seq<u16>, s: Seq<char>)
    ensures
        utf16_decode(units) == Some(s) <==> utf16_encode(s) == units,
{
    if utf16_decode(units) == Some(s) {
        lemma_utf16_encode_decode(units);
    }
    if utf16_encode(s) == units {
        lemma_utf16_decode_encode(s);
    }
}

/// Decodes UTF-16 code units into a string; `None` where they hold a
/// surrogate without its partner.
pub fn decode_utf16(units: &[u16]) -> (decoded: Option<String>)
    ensures
        match decoded {
            Some(s) => utf16_decode(units@) == Some(s@) && utf16_encode(s@) == units@,
            None => utf16_decode(units@) is None && forall|s: Seq<char>|
                utf16_encode(s) != units@,
        },
{
    let mut out = String::new();
    let mut i: usize = 0;
    assert(units@.skip(0) == units@);
    assert(Seq::<char>::empty() + utf16_decode(units@)->0 == utf16_decode(units@)->0);
    while i < units.len()
        invariant
            i <= units.len(),
            utf16_decode(units@) == match utf16_decode(units@.skip(i as int)) {
                Some(rest) => Some(out@ + rest),
                None => None,
            },
        decreases units.len() - i,
    {
        let u: u16 = units[i];
        let ghost tail = units@.skip(i as int);
        let ghost before = out@;
        assert(tail[0] == u);
        if u < 0xD800 || u > 0xDFFF {
            let c = match char::from_u32(u as u32) {
                Some(c) => c,
                None => {
                    return None;
                },
            };
            out.push(c);
            proof {
                assert(tail.skip(1) == units@.skip(i + 1));
                vstd::utf8::char_u32_cast(c, u as u32);
                assert(c == u as char);
                if let Some(rest) = utf16_decode(tail.skip(1)) {
                    assert(before + (seq![c] + rest) == before.push(c) + rest);
                }
            }
            i += 1;
        } else if u <= 0xDBFF && i + 1 < units.len() && units[i + 1] >= 0xDC00 && units[i + 1]
            <= 0xDFFF {
            let low: u16 = units[i + 1];
            let value: u32 = 0x10000 + (u as u32 - 0xD800) * 0x400 + (low as u32 - 0xDC00);
            let c = match char::from_u32(value) {
                Some(c) => c,
                None => {
                    return None;
                },
            };
            out.push(c);
            proof {
                assert(tail[1] == low);
                assert(tail.skip(2) == units@.skip(i + 2));
                vstd::utf8::char_u32_cast(c, value);
                assert(c == surrogate_pair_char(u, low));
                if let Some(rest) = utf16_decode(tail.skip(2)) {
                    assert(before + (seq![c] + rest) == before.push(c) + rest);
                }
            }
            i += 2;
        } else {
            proof {
                if i + 1 < units.len() {
                    assert(tail[1] == units[i + 1]);
                }
                assert(utf16_decode(tail) is None);
                assert forall|s: Seq<char>| utf16_encode(s) != units@ by {
                    lemma_utf16_decode_iff_encode(units@, s);
                }
            }
            return None;
        }
    }
    proof {
        assert(units@.skip(i as int) == Seq::<u16>::empty());
        assert(out@ + Seq::<char>::empty() == out@);
        lemma_utf16_encode_decode(units@);
    }
    Some(out)
}

/// The status code of an unspecified failure.
pub const E_FAIL: i32 = -2147467259;

/// The status code of an invalid argument.
pub const E_INVALIDARG: i32 = -2147024809;

/// The status code of an operation that is not implemented.
pub const E_NOTIMPL: i32 = -2147467263;

/// What can be handed to the system as a wide string.
pub trait ToWide {
    /// The text that goes to the system.
    spec fn wide_text(&self) -> Seq<char>;

    /// The text in UTF-16, closed by a zero code unit.
    fn to_wide_null(&self) -> (wide: Vec<u16>)
        ensures
            wide@ == utf16_encode(self.wide_text()).push(0u16),
    ;
}

impl ToWide for str {
    open spec fn wide_text(&self) -> Seq<char> {
        self@
    }

    fn to_wide_null(&self) -> (wide: Vec<u16>) {
        let mut wide = encode_utf16(self);
        wide.push(0);
        wide
    }
}

impl ToWide for String {
    open spec fn wide_text(&self) -> Seq<char> {
        self@
    }

    fn to_wide_null(&self) -> (wide: Vec<u16>) {
        let mut wide = encode_utf16(self.as_str());
        wide.push(0);
        wide
    }
}

/// A locale that a list of localized strings is searched for.
#[derive(PartialEq, Eq, Structural, Debug, Clone, Copy)]
pub enum LocaleQuery {
    /// The locale of the user.
    System,
    /// United States English.
    EnUs,
}

/// What to do next on the way to a localized string.
#[derive(PartialEq, Eq, Structural, Debug, Clone, Copy)]
pub enum LocaleStep {
    /// Search the list for this locale.
    Find(LocaleQuery),
    /// Read the string at this index of the list.
    Read(u32),
}

/// The index at which a localized string is read: that of the user's
/// locale where the list has it, else that of United States English,
/// else the first.
pub open spec fn selected_locale_index(system: Option<u32>, en_us: Option<u32>) -> u32 {
    match system {
        Some(index) => index,
        None => match en_us {
            Some(index) => index,
            None => 0,
        },
    }
}

/// What a search of the list has found: the index that was reported,
/// provided that the search succeeded and the locale exists.
pub fn locale_lookup_outcome(succeeded: bool, exists: bool, index: u32) -> (found: Option<u32>)
    ensures
        found == (if succeeded && exists {
            Some(index)
        } else {
            None
        }),
{
    if succeeded && exists {
        Some(index)
    } else {
        None
    }
}

/// The step with which the way to a localized string starts: a search
/// for the user's locale.
pub open spec fn initial_locale_step() -> LocaleStep {
    LocaleStep::Find(LocaleQuery::System)
}

/// The step that follows a search for `asked` that found `found`: a hit
/// is read; after a miss of the user's locale United States English is
/// searched for; after a miss of that too the first string is read.
pub open spec fn locale_step_after(asked: LocaleQuery, found: Option<u32>) -> LocaleStep {
    match (asked, found) {
        (_, Some(index)) => LocaleStep::Read(index),
        (LocaleQuery::System, None) => LocaleStep::Find(LocaleQuery::EnUs),
        (LocaleQuery::EnUs, None) => LocaleStep::Read(0),
    }
}

/// The first step towards a localized string.
pub fn first_locale_step() -> (step: LocaleStep)
    ensures
        step == initial_locale_step(),
{
    LocaleStep::Find(LocaleQuery::System)
}

/// The step that follows a search for `asked` that found `found`.
pub fn next_locale_step(asked: LocaleQuery, found: Option<u32>) -> (step: LocaleStep)
    ensures
        step == locale_step_after(asked, found),
{
    match found {
        Some(index) => LocaleStep::Read(index),
        None => match asked {
            LocaleQuery::System => LocaleStep::Find(LocaleQuery::EnUs),
            LocaleQuery::EnUs => LocaleStep::Read(0),
        },
    }
}

/// What a search of a list finds, where `system` is the index of the
/// user's locale in the list and `en_us` that of United States English,
/// each `None` where the list lacks the locale.
pub open spec fn locale_search(
    system: Option<u32>,
    en_us: Option<u32>,
    query: LocaleQuery,
) -> Option<u32> {
    match query {
        LocaleQuery::System => system,
        LocaleQuery::EnUs => en_us,
    }
}

/// The step reached from the initial step when each search that a step
/// asks for is made on the list and the step that follows is taken, for
/// at most `searches` searches. A step that reads is the end.
pub open spec fn locale_steps(
    system: Option<u32>,
    en_us: Option<u32>,
    searches: nat,
) -> LocaleStep
    decreases searches,
{
    if searches == 0 {
        initial_locale_step()
    } else {
        match locale_steps(system, en_us, (searches - 1) as nat) {
            LocaleStep::Find(query) => locale_step_after(
                query,
                locale_search(system, en_us, query),
            ),
            LocaleStep::Read(index) => LocaleStep::Read(index),
        }
    }
}

/// Following the steps leads, within two searches, to the string that
/// the order of preference selects, and stays there; United States
/// English is searched for only after the user's locale was missed.
pub proof fn lemma_locale_steps_select(system: Option<u32>, en_us: Option<u32>, searches: nat)
    ensures
        searches >= 2 ==> locale_steps(system, en_us, searches) == LocaleStep::Read(
            selected_locale_index(system, en_us),
        ),
        system is Some ==> locale_steps(system, en_us, 1) == LocaleStep::Read(
            selected_locale_index(system, en_us),
        ),
        locale_steps(system, en_us, 1) == LocaleStep::Find(LocaleQuery::EnUs) <==> system is None,
    decreases searches,
{
    reveal_with_fuel(locale_steps, 3);
    if searches > 2 {
        lemma_locale_steps_select(system, en_us, (searches - 1) as nat);
    }
}

/// The text of a localized string, from the buffer that the system
/// filled and the length that it reported: the first `length` code
/// units, decoded. What cannot be decoded is reported as `E_FAIL`.
pub fn locale_string_from_buffer(buffer: &[u16], length: usize) -> (text: Result<String, i32>)
    requires
        length <= buffer@.len(),
    ensures
        match text {
            Ok(s) => utf16_encode(s@) == buffer@.take(length as int),
            Err(code) => code == E_FAIL && forall|s: Seq<char>|
                utf16_encode(s) != buffer@.take(length as int),
        },
{
    let units = vstd::slice::slice_subrange(buffer, 0, length);
    match decode_utf16(units) {
        Some(s) => Ok(s),
        None => Err(E_FAIL),
    }
}

/// The name of the user's locale, from the buffer that the system
/// filled and the length that it reported: the buffer cut to that
/// length. A length that is negative or beyond the buffer leaves the
/// buffer whole.
pub fn system_locale_name(buffer: Vec<u16>, length: i32) -> (name: Vec<u16>)
    ensures
        name@ == if 0 <= length <= buffer@.len() {
            buffer@.take(length as int)
        } else {
            buffer@
        },
{
    let mut name = buffer;
    if length >= 0 {
        name.truncate(length as usize);
    }
    name
}

/// The length of the buffer that takes a string of `length` code units
/// and the zero that closes it; `None` where that length cannot be held.
pub fn terminated_len(length: u32) -> (len: Option<usize>)
    ensures
        match len {
            Some(n) => n == length + 1,
            None => length + 1 > usize::MAX,
        },
{
    let length: usize = length as usize;
    length.checked_add(1)
}

} // verus!
