use dwrote::font_collection::FontCollectionFamilyIterator;
use dwrote::font_face::{
    check_glyph_run, glyph_run_outline_result, kerning_adjustment, variable_axis_indices,
    variation_axis_count, VariationReport,
};
use dwrote::font_file::{FontFileAnalysis, FontFileState, FACE_TYPE_UNKNOWN};
use dwrote::{
    FontFaceType, FontMetrics, FontMetrics0, FontMetrics1, GlyphRunOutlineError,
    InformationalStringId,
};

fn basic_metrics(units: u16) -> FontMetrics0 {
    FontMetrics0 {
        design_units_per_em: units,
        ascent: 1854,
        descent: 434,
        line_gap: 67,
        cap_height: 1409,
        x_height: 1082,
        underline_position: -217,
        underline_thickness: 150,
        strikethrough_position: 530,
        strikethrough_thickness: 102,
    }
}

fn extended_metrics(units: u16) -> FontMetrics1 {
    FontMetrics1 {
        base: basic_metrics(units),
        glyph_box_left: -1361,
        glyph_box_top: 2126,
        glyph_box_right: 4096,
        glyph_box_bottom: -665,
        subscript_position_x: 0,
        subscript_position_y: -287,
        subscript_size_x: 1331,
        subscript_size_y: 1433,
        superscript_position_x: 0,
        superscript_position_y: 977,
        superscript_size_x: 1331,
        superscript_size_y: 1433,
        has_typographic_metrics: true,
    }
}

#[test]
fn metrics0_of_basic_metrics() {
    let metrics = FontMetrics::Metrics0(basic_metrics(2048));
    assert_eq!(metrics.metrics0(), basic_metrics(2048));
}

#[test]
fn metrics0_of_extended_metrics_is_the_base() {
    let metrics = FontMetrics::Metrics1(extended_metrics(1000));
    assert_eq!(metrics.metrics0(), basic_metrics(1000));
    assert_ne!(metrics.metrics0(), basic_metrics(2048));
}

#[test]
fn metrics_select_prefers_extended() {
    assert_eq!(
        FontMetrics::select(basic_metrics(2048), Some(extended_metrics(1000))),
        FontMetrics::Metrics1(extended_metrics(1000))
    );
    assert_eq!(
        FontMetrics::select(basic_metrics(2048), None),
        FontMetrics::Metrics0(basic_metrics(2048))
    );
}

#[test]
fn informational_string_codes() {
    assert_eq!(InformationalStringId::CopyrightNotice.to_code(), 1);
    assert_eq!(InformationalStringId::Version.to_code(), 2);
    assert_eq!(InformationalStringId::FullName.to_code(), 16);
    assert_eq!(InformationalStringId::PostscriptName.to_code(), 17);
    assert_eq!(InformationalStringId::PostscriptCidName.to_code(), 18);
    assert_eq!(InformationalStringId::WwsFamilyName.to_code(), 19);
    assert_eq!(InformationalStringId::DesignScriptLanguageTag.to_code(), 20);
    assert_eq!(InformationalStringId::SupportedScriptLanguageTag.to_code(), 21);
    for code in 1u32..=21 {
        assert_eq!(InformationalStringId::from_code(code).to_code(), code);
    }
}

#[test]
fn face_type_codes() {
    assert_eq!(FontFaceType::from_code(0), FontFaceType::Cff);
    assert_eq!(FontFaceType::from_code(1), FontFaceType::TrueType);
    assert_eq!(FontFaceType::from_code(2), FontFaceType::TrueTypeCollection);
    assert_eq!(FontFaceType::from_code(3), FontFaceType::Type1);
    assert_eq!(FontFaceType::from_code(4), FontFaceType::Vector);
    assert_eq!(FontFaceType::from_code(5), FontFaceType::Bitmap);
    assert_eq!(FontFaceType::from_code(6), FontFaceType::Unknown);
    assert_eq!(FontFaceType::from_code(7), FontFaceType::RawCff);
    assert_eq!(FontFaceType::from_code(8), FontFaceType::Unknown);
    assert_eq!(FontFaceType::from_code(-1), FontFaceType::Unknown);
}

#[test]
fn glyph_run_lengths_must_agree() {
    assert_eq!(check_glyph_run(3, None, None), Ok(()));
    assert_eq!(check_glyph_run(3, Some(3), None), Ok(()));
    assert_eq!(check_glyph_run(3, None, Some(3)), Ok(()));
    assert_eq!(check_glyph_run(3, Some(3), Some(3)), Ok(()));
    assert_eq!(check_glyph_run(0, Some(0), Some(0)), Ok(()));
    assert_eq!(check_glyph_run(3, Some(2), None), Err(GlyphRunOutlineError::InvalidInput));
    assert_eq!(check_glyph_run(3, None, Some(4)), Err(GlyphRunOutlineError::InvalidInput));
    assert_eq!(check_glyph_run(3, Some(3), Some(0)), Err(GlyphRunOutlineError::InvalidInput));
    assert_eq!(check_glyph_run(0, Some(1), Some(0)), Err(GlyphRunOutlineError::InvalidInput));
}

#[test]
fn glyph_run_outline_result_wraps_the_status() {
    assert_eq!(glyph_run_outline_result(Ok(())), Ok(()));
    assert_eq!(
        glyph_run_outline_result(Err(-2147024809)),
        Err(GlyphRunOutlineError::Win32Error(-2147024809))
    );
}

#[test]
fn outline_error_messages() {
    assert_eq!(GlyphRunOutlineError::InvalidInput.message(), "Invalid input");
    assert_eq!(GlyphRunOutlineError::Win32Error(-2147467259).message(), "0x80004005");
    assert_eq!(GlyphRunOutlineError::Win32Error(-2147024809).message(), "0x80070057");
    assert_eq!(GlyphRunOutlineError::Win32Error(0).message(), "0x0");
    assert_eq!(GlyphRunOutlineError::Win32Error(1).message(), "0x1");
    assert_eq!(GlyphRunOutlineError::Win32Error(255).message(), "0xff");
    assert_eq!(GlyphRunOutlineError::Win32Error(0x1234abc).message(), "0x1234abc");
    assert_eq!(GlyphRunOutlineError::Win32Error(-1).message(), "0xffffffff");
    assert_eq!(GlyphRunOutlineError::Win32Error(i32::MIN).message(), "0x80000000");
    assert_eq!(GlyphRunOutlineError::Win32Error(i32::MAX).message(), "0x7fffffff");
}

#[test]
fn outline_error_message_matches_std_formatting() {
    for code in [0i32, 5, 16, 4096, -5, -4096, 0x7fff_0000, -2147467263] {
        assert_eq!(GlyphRunOutlineError::Win32Error(code).message(), format!("{:#x}", code));
    }
}

#[test]
fn variable_axes_are_picked_in_order() {
    assert_eq!(variable_axis_indices(&vec![]), Vec::<usize>::new());
    assert_eq!(variable_axis_indices(&vec![0, 2, 0]), Vec::<usize>::new());
    assert_eq!(variable_axis_indices(&vec![1, 0, 1, 3, 2]), vec![0, 2, 3]);
    assert_eq!(variable_axis_indices(&vec![0, 0, 0, 1]), vec![3]);
    assert_eq!(variable_axis_indices(&vec![1, 1, 1]), vec![0, 1, 2]);
    assert_eq!(variable_axis_indices(&vec![u32::MAX, u32::MAX - 1]), vec![0]);
}

#[test]
fn kerning_without_support_is_zero() {
    assert_eq!(kerning_adjustment(None), Ok(0));
    assert_eq!(kerning_adjustment(Some(Ok((-37, 12)))), Ok(-37));
    assert_eq!(kerning_adjustment(Some(Ok((0, 99)))), Ok(0));
    assert_eq!(kerning_adjustment(Some(Err(-2147467259))), Err(-2147467259));
}

#[test]
fn family_walk_visits_each_index_once() {
    let mut walk = FontCollectionFamilyIterator::new(3);
    let mut seen = Vec::new();
    while let Some(index) = walk.next_index() {
        assert!(walk.family_fetched(true));
        seen.push(index);
    }
    assert_eq!(seen, vec![0, 1, 2]);
    assert_eq!(walk.next_index(), None);
    assert_eq!(walk.remaining(), 0);
}

#[test]
fn family_walk_stays_after_a_failed_fetch() {
    let mut walk = FontCollectionFamilyIterator::new(2);
    assert_eq!(walk.next_index(), Some(0));
    assert!(!walk.family_fetched(false));
    assert_eq!(walk.next_index(), Some(0));
    assert_eq!(walk.remaining(), 2);
    assert!(walk.family_fetched(true));
    assert_eq!(walk.next_index(), Some(1));
    assert_eq!(walk.remaining(), 1);
}

#[test]
fn family_walk_of_empty_collection() {
    let walk = FontCollectionFamilyIterator::new(0);
    assert_eq!(walk.next_index(), None);
    assert_eq!(walk.remaining(), 0);
}

#[test]
fn font_file_state_after_analysis() {
    let mut state = FontFileState::new(0);
    assert_eq!(state.face_type(), FACE_TYPE_UNKNOWN);
    assert_eq!(state.data_key(), None);
    let faces = state.analyze(Ok(FontFileAnalysis { face_type: 1, face_count: 4 }));
    assert_eq!(faces, 4);
    assert_eq!(state.face_type(), 1);
    assert!(FontFileState::is_usable(faces));
}

#[test]
fn font_file_state_after_failed_analysis() {
    let mut state = FontFileState::new(7);
    state.analyze(Ok(FontFileAnalysis { face_type: 2, face_count: 1 }));
    let faces = state.analyze(Err(-2147467259));
    assert_eq!(faces, 0);
    assert_eq!(state.face_type(), 2);
    assert_eq!(state.data_key(), Some(7));
    assert!(!FontFileState::is_usable(faces));
}

#[test]
fn font_file_key_zero_reads_as_no_key() {
    assert_eq!(FontFileState::new(0).data_key(), None);
    assert_eq!(FontFileState::new(1).data_key(), Some(1));
    assert_eq!(FontFileState::new(usize::MAX).data_key(), Some(usize::MAX));
}

#[test]
fn file_enumerator_hands_out_each_file_once() {
    let mut files = dwrote::font_collection_impl::CustomFontFileEnumeratorImpl::new(vec![
        "a.ttf", "b.ttf", "c.otf",
    ]);
    assert_eq!(files.current_font_file(), Err(dwrote::helpers::E_INVALIDARG));
    assert!(files.move_next());
    assert_eq!(files.current_font_file(), Ok(&"a.ttf"));
    assert_eq!(files.current_font_file(), Ok(&"a.ttf"));
    assert!(files.move_next());
    assert_eq!(files.current_font_file(), Ok(&"b.ttf"));
    assert!(files.move_next());
    assert_eq!(files.current_font_file(), Ok(&"c.otf"));
    assert!(!files.move_next());
    assert_eq!(files.current_font_file(), Err(dwrote::helpers::E_INVALIDARG));
    assert!(!files.move_next());
    assert_eq!(files.current_font_file(), Err(dwrote::helpers::E_INVALIDARG));
}

#[test]
fn file_enumerator_without_files() {
    let mut files =
        dwrote::font_collection_impl::CustomFontFileEnumeratorImpl::new(Vec::<u8>::new());
    assert_eq!(files.current_font_file(), Err(dwrote::helpers::E_INVALIDARG));
    assert!(!files.move_next());
    assert_eq!(files.current_font_file(), Err(dwrote::helpers::E_INVALIDARG));
    assert!(!files.move_next());
}

#[test]
fn axis_values_are_read_only_from_a_face_that_varies() {
    assert_eq!(variation_axis_count(None), None);
    assert_eq!(
        variation_axis_count(Some(VariationReport { has_variations: false, axis_count: 4 })),
        None
    );
    assert_eq!(
        variation_axis_count(Some(VariationReport { has_variations: true, axis_count: 0 })),
        None
    );
    assert_eq!(
        variation_axis_count(Some(VariationReport { has_variations: false, axis_count: 0 })),
        None
    );
    assert_eq!(
        variation_axis_count(Some(VariationReport { has_variations: true, axis_count: 1 })),
        Some(1)
    );
    assert_eq!(
        variation_axis_count(Some(VariationReport { has_variations: true, axis_count: 5 })),
        Some(5)
    );
}
