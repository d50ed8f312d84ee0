use glyphplan::error::FreetypeError;
use glyphplan::style::{
    category_font_size, choose_family_faces, slot_from_style, slot_from_variant, Family, FamilyFaces,
    FontSlot, Style, Variant, FONT_SIZES,
};
use glyphplan::variation::{
    decode_name, eq_ignore_ascii_case, find_named_instance, variation_coords, variation_tag, Axis, NameEntry,
    MS_ID_UNICODE_CS, MS_LANGID_ENGLISH_UNITED_STATES, PLATFORM_MICROSOFT,
};

#[test]
fn category_sizes_shrink_with_depth() {
    let expected = [524, 483, 445, 410, 378, 349, 349, 349];
    for (depth, &size) in expected.iter().enumerate() {
        assert_eq!(category_font_size(depth), size);
    }
    assert_eq!(category_font_size(usize::MAX), 349);
}

#[test]
fn category_sizes_match_the_float_formula() {
    for depth in 0..9usize {
        let k = (2.0 / 3.0f32).powf(5usize.min(depth) as f32 / 5.0);
        assert_eq!(category_font_size(depth), (k * FONT_SIZES[1] as f32) as u32);
    }
}

#[test]
fn variants_select_faces() {
    assert_eq!(slot_from_variant(Variant::regular()), FontSlot::Regular);
    assert_eq!(slot_from_variant(Variant::italic()), FontSlot::Italic);
    assert_eq!(slot_from_variant(Variant::bold()), FontSlot::Bold);
    assert_eq!(slot_from_variant(Variant::italic().union(Variant::bold())), FontSlot::BoldItalic);
    assert!(Variant::italic().union(Variant::bold()).contains(Variant::bold()));
    assert!(!Variant::italic().contains(Variant::bold()));
}

#[test]
fn styles_select_faces() {
    let title = Style { family: Family::Serif, variant: Variant::italic(), size: FONT_SIZES[2] };
    assert_eq!(slot_from_style(&title), (Family::Serif, FontSlot::Italic));
    let kbd = Style { family: Family::Keyboard, variant: Variant::bold(), size: 337 };
    assert_eq!(slot_from_style(&kbd), (Family::Keyboard, FontSlot::Regular));
}

fn names(list: &[Option<&str>]) -> Vec<Option<String>> {
    list.iter().map(|n| n.map(String::from)).collect()
}

#[test]
fn family_faces_follow_fallbacks() {
    let found = names(&[Some("Bold"), None, Some("Medium Italic"), Some("Italic")]);
    assert_eq!(
        choose_family_faces(&found),
        Some(FamilyFaces { regular: 1, italic: 3, bold: 0, bold_italic: 2 })
    );
}

#[test]
fn family_faces_default_to_regular_and_italic() {
    let found = names(&[Some("Book"), Some("Roman")]);
    assert_eq!(
        choose_family_faces(&found),
        Some(FamilyFaces { regular: 1, italic: 1, bold: 1, bold_italic: 1 })
    );
    let found = names(&[Some("Regular"), Some("Book Italic"), Some("Regular")]);
    assert_eq!(
        choose_family_faces(&found),
        Some(FamilyFaces { regular: 2, italic: 1, bold: 2, bold_italic: 1 })
    );
}

#[test]
fn family_without_regular_is_refused() {
    let found = names(&[Some("Bold"), Some("Italic")]);
    assert_eq!(choose_family_faces(&found), None);
    assert_eq!(choose_family_faces(&Vec::new()), None);
}

fn axes() -> Vec<Axis> {
    vec![
        Axis { tag: 0x77676874, minimum: 200 * 65536, maximum: 500 * 65536, default: 400 * 65536 },
        Axis { tag: 0x77647468, minimum: 75 * 65536, maximum: 100 * 65536, default: 100 * 65536 },
    ]
}

#[test]
fn weight_request_clamps_to_axis_maximum() {
    let t = variation_tag("wght=600").unwrap();
    assert_eq!(t, 0x77676874);
    let coords = variation_coords(&axes(), &vec![(t, 600 * 65536)]);
    assert_eq!(coords, vec![500 * 65536, 100 * 65536]);
}

#[test]
fn variation_requests_clamp_and_skip_unknown_tags() {
    let wdth = variation_tag("wdth=50").unwrap();
    let slnt = variation_tag("slnt=-5").unwrap();
    let coords = variation_coords(&axes(), &vec![(wdth, 50 * 65536), (slnt, -5 * 65536)]);
    assert_eq!(coords, vec![400 * 65536, 75 * 65536]);
    assert_eq!(variation_coords(&axes(), &Vec::new()), vec![400 * 65536, 100 * 65536]);
    assert_eq!(variation_tag("wg"), None);
}

fn utf16be(s: &str) -> Vec<u8> {
    s.bytes().flat_map(|b| [0u8, b]).collect()
}

fn entry(name_id: u16, text: &str) -> NameEntry {
    NameEntry {
        name_id,
        platform_id: PLATFORM_MICROSOFT,
        encoding_id: MS_ID_UNICODE_CS,
        language_id: MS_LANGID_ENGLISH_UNITED_STATES,
        text: utf16be(text),
    }
}

#[test]
fn named_instances_are_found_ignoring_case() {
    let entries = vec![entry(256, "Light"), entry(257, "Semibold"), entry(258, "Black")];
    let strids = vec![256u16, 257, 258];
    assert_eq!(find_named_instance("semibold", &strids, &entries), Some(1));
    assert_eq!(find_named_instance("BLACK", &strids, &entries), Some(2));
    assert_eq!(find_named_instance("Thin", &strids, &entries), None);
}

#[test]
fn named_instances_need_english_unicode_entries() {
    let mut other = entry(256, "Light");
    other.platform_id = 1;
    let strids = vec![256u16];
    assert_eq!(find_named_instance("Light", &strids, &vec![other]), None);
    let mut french = entry(256, "Light");
    french.language_id = 0x040C;
    assert_eq!(find_named_instance("Light", &strids, &vec![french]), None);
}

#[test]
fn names_decode_from_utf16be() {
    assert_eq!(decode_name(&utf16be("Bold")), b"Bold".to_vec());
    assert_eq!(decode_name(&vec![0, 65, 0]), vec![65]);
    assert!(eq_ignore_ascii_case(b"SemiBold", b"semibold"));
    assert!(!eq_ignore_ascii_case(b"Bold", b"Bolder"));
    assert!(!eq_ignore_ascii_case(b"[", b"{"));
}

#[test]
fn engine_codes_map_to_errors() {
    assert_eq!(FreetypeError::from_code(0x01), FreetypeError::CannotOpenResource);
    assert_eq!(FreetypeError::from_code(0x02), FreetypeError::UnknownFileFormat);
    assert_eq!(FreetypeError::from_code(0x03), FreetypeError::InvalidFileFormat);
    assert_eq!(FreetypeError::from_code(0x06), FreetypeError::InvalidArgument);
    assert_eq!(FreetypeError::from_code(0x40), FreetypeError::OutOfMemory);
    assert_eq!(FreetypeError::from_code(0x51), FreetypeError::CannotOpenStream);
    assert_eq!(FreetypeError::from_code(0xBA), FreetypeError::CorruptedFontGlyphs);
    assert_eq!(FreetypeError::from_code(0x0D), FreetypeError::UnknownError(0x0D));
    assert_eq!(FreetypeError::from_code(0), FreetypeError::UnknownError(0));
}
