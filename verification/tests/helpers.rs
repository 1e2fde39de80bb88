use dwrote::helpers::{
    decode_utf16, encode_utf16, first_locale_step, locale_lookup_outcome,
    locale_string_from_buffer, next_locale_step, system_locale_name, LocaleQuery, LocaleStep,
    ToWide, E_FAIL,
};

#[test]
fn encode_ascii() {
    assert_eq!(encode_utf16("en-us"), vec![0x65, 0x6e, 0x2d, 0x75, 0x73]);
    assert_eq!(encode_utf16(""), Vec::<u16>::new());
}

#[test]
fn encode_basic_plane_and_beyond() {
    // U+00E9, U+20AC, U+FFFF, U+10000, U+1F600, U+10FFFF
    assert_eq!(encode_utf16("\u{e9}"), vec![0x00e9]);
    assert_eq!(encode_utf16("\u{20ac}"), vec![0x20ac]);
    assert_eq!(encode_utf16("\u{ffff}"), vec![0xffff]);
    assert_eq!(encode_utf16("\u{10000}"), vec![0xd800, 0xdc00]);
    assert_eq!(encode_utf16("\u{1f600}"), vec![0xd83d, 0xde00]);
    assert_eq!(encode_utf16("\u{10ffff}"), vec![0xdbff, 0xdfff]);
    assert_eq!(encode_utf16("\u{d7ff}\u{e000}"), vec![0xd7ff, 0xe000]);
}

#[test]
fn encode_agrees_with_std() {
    for text in ["", "Arial", "\u{30e1}\u{30a4}\u{30ea}\u{30aa}", "a\u{1f600}b\u{10ffff}", "\u{0}x"] {
        let expected: Vec<u16> = text.encode_utf16().collect();
        assert_eq!(encode_utf16(text), expected);
    }
}

#[test]
fn to_wide_null_appends_zero() {
    assert_eq!("en-us".to_wide_null(), vec![0x65, 0x6e, 0x2d, 0x75, 0x73, 0]);
    assert_eq!("".to_wide_null(), vec![0]);
    assert_eq!(String::from("\u{1f600}").to_wide_null(), vec![0xd83d, 0xde00, 0]);
}

#[test]
fn decode_valid_units() {
    assert_eq!(decode_utf16(&[]), Some(String::new()));
    assert_eq!(decode_utf16(&[0x41, 0x72, 0x69, 0x61, 0x6c]), Some(String::from("Arial")));
    assert_eq!(decode_utf16(&[0xd83d, 0xde00]), Some(String::from("\u{1f600}")));
    assert_eq!(decode_utf16(&[0xd800, 0xdc00]), Some(String::from("\u{10000}")));
    assert_eq!(decode_utf16(&[0xdbff, 0xdfff]), Some(String::from("\u{10ffff}")));
    assert_eq!(decode_utf16(&[0xd7ff, 0xe000, 0xffff]), Some(String::from("\u{d7ff}\u{e000}\u{ffff}")));
    assert_eq!(decode_utf16(&[0x61, 0]), Some(String::from("a\u{0}")));
}

#[test]
fn decode_rejects_lone_surrogates() {
    assert_eq!(decode_utf16(&[0xd800]), None);
    assert_eq!(decode_utf16(&[0xdc00]), None);
    assert_eq!(decode_utf16(&[0x41, 0xd83d]), None);
    assert_eq!(decode_utf16(&[0xd83d, 0x41]), None);
    assert_eq!(decode_utf16(&[0xde00, 0xd83d]), None);
    assert_eq!(decode_utf16(&[0xd83d, 0xd83d, 0xde00]), None);
    assert_eq!(decode_utf16(&[0xd83d, 0xde00, 0xde00]), None);
}

#[test]
fn decode_agrees_with_std() {
    let samples: [&[u16]; 6] = [
        &[0x48, 0x69],
        &[0xd834, 0xdd1e, 0x6d, 0x75],
        &[0xd834, 0x6d],
        &[0xdfff],
        &[0xdbff, 0xdc00],
        &[0xffff, 0xfffe],
    ];
    for units in samples {
        assert_eq!(decode_utf16(units), String::from_utf16(units).ok());
    }
}

#[test]
fn decode_undoes_encode() {
    for text in ["", "Times New Roman", "\u{1f600}\u{e9}\u{10ffff}z", "\u{ffff}\u{10000}"] {
        assert_eq!(decode_utf16(&encode_utf16(text)), Some(String::from(text)));
    }
}

#[test]
fn locale_steps_prefer_the_system_locale() {
    assert_eq!(first_locale_step(), LocaleStep::Find(LocaleQuery::System));
    assert_eq!(next_locale_step(LocaleQuery::System, Some(4)), LocaleStep::Read(4));
    assert_eq!(next_locale_step(LocaleQuery::System, Some(0)), LocaleStep::Read(0));
}

#[test]
fn locale_steps_fall_back_to_en_us_then_first() {
    assert_eq!(
        next_locale_step(LocaleQuery::System, None),
        LocaleStep::Find(LocaleQuery::EnUs)
    );
    assert_eq!(next_locale_step(LocaleQuery::EnUs, Some(2)), LocaleStep::Read(2));
    assert_eq!(next_locale_step(LocaleQuery::EnUs, None), LocaleStep::Read(0));
}

#[test]
fn locale_lookup_needs_success_and_existence() {
    assert_eq!(locale_lookup_outcome(true, true, 5), Some(5));
    assert_eq!(locale_lookup_outcome(true, false, 5), None);
    assert_eq!(locale_lookup_outcome(false, true, 5), None);
    assert_eq!(locale_lookup_outcome(false, false, u32::MAX), None);
}

#[test]
fn locale_string_reads_the_reported_length() {
    let buffer = [0x41u16, 0x72, 0x69, 0x61, 0x6c, 0];
    assert_eq!(locale_string_from_buffer(&buffer, 5), Ok(String::from("Arial")));
    assert_eq!(locale_string_from_buffer(&buffer, 2), Ok(String::from("Ar")));
    assert_eq!(locale_string_from_buffer(&buffer, 0), Ok(String::new()));
    assert_eq!(locale_string_from_buffer(&buffer, 6), Ok(String::from("Arial\u{0}")));
}

#[test]
fn locale_string_that_is_not_utf16_fails() {
    let buffer = [0x41u16, 0xd800, 0x42, 0];
    assert_eq!(locale_string_from_buffer(&buffer, 3), Err(E_FAIL));
    assert_eq!(locale_string_from_buffer(&buffer, 2), Err(E_FAIL));
    assert_eq!(locale_string_from_buffer(&buffer, 1), Ok(String::from("A")));
    assert_eq!(E_FAIL as u32, 0x80004005);
}

#[test]
fn system_locale_is_cut_to_the_reported_length() {
    let mut buffer = vec![0u16; 85];
    buffer[..6].copy_from_slice(&[0x65, 0x6e, 0x2d, 0x55, 0x53, 0]);
    assert_eq!(system_locale_name(buffer.clone(), 6), vec![0x65, 0x6e, 0x2d, 0x55, 0x53, 0]);
    assert_eq!(system_locale_name(buffer.clone(), 0), Vec::<u16>::new());
    assert_eq!(system_locale_name(buffer.clone(), 85), buffer);
    assert_eq!(system_locale_name(buffer.clone(), 86), buffer);
    assert_eq!(system_locale_name(buffer.clone(), -1), buffer);
}

#[test]
fn terminated_len_adds_the_closing_zero() {
    assert_eq!(dwrote::helpers::terminated_len(0), Some(1));
    assert_eq!(dwrote::helpers::terminated_len(5), Some(6));
    assert_eq!(dwrote::helpers::terminated_len(260), Some(261));
    assert_eq!(
        dwrote::helpers::terminated_len(u32::MAX),
        (u32::MAX as usize).checked_add(1)
    );
}
