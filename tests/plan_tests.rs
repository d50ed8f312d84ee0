use glyphplan::fallback::{font_data_from_script, FallbackFont};
use glyphplan::font::Font;
use glyphplan::plan::{GlyphPlan, Point, RenderPlan};
use glyphplan::script::{
    choose_script, script_from_code, tag, SCRIPT_HAN, SCRIPT_INVALID, SCRIPT_LATIN, SYMBOL_ARROW,
};
use glyphplan::shaping::{gap_text_ranges, missing_ranges, place, shape_plan, FallbackRun, ShapedGlyph};

/// A shaped glyph with whole-pixel advance `px`.
fn sg(codepoint: u32, cluster: u32, px: i32) -> ShapedGlyph {
    ShapedGlyph { codepoint, cluster, x_advance: px * 64, y_advance: 0, x_offset: 0, y_offset: 0 }
}

/// A plan of glyphs with the given codepoints and advances, one byte per glyph.
fn latin_plan(glyphs: &[(u32, i32)]) -> RenderPlan {
    let primary: Vec<ShapedGlyph> =
        glyphs.iter().enumerate().map(|(i, &(cp, px))| sg(cp, i as u32, px)).collect();
    let ranges = missing_ranges(&primary);
    assert!(ranges.is_empty());
    shape_plan(&primary, &ranges, &Vec::new())
}

fn sum_advances(plan: &RenderPlan) -> i64 {
    (0..plan.len()).map(|i| plan.glyph_advance(i) as i64).sum()
}

fn mark_font(space: u32) -> Font {
    let mut font = Font::new(space);
    assert!(font.set_size(524, 300));
    let ellipsis = latin_plan(&[(900, 6)]);
    font.remeasure(524, 300, ellipsis, (11, 15));
    font
}

#[test]
fn hello_in_latin_face() {
    // "Hello": every character in the primary face.
    let primary = vec![sg(43, 0, 14), sg(72, 1, 11), sg(79, 2, 5), sg(79, 3, 5), sg(82, 4, 12)];
    let ranges = missing_ranges(&primary);
    assert!(ranges.is_empty());
    let plan = shape_plan(&primary, &ranges, &Vec::new());
    assert_eq!(plan.len(), 5);
    for i in 0..5 {
        assert_eq!(plan.script(i), None);
    }
    assert_eq!(plan.width, 47);
    assert_eq!(plan.width as i64, sum_advances(&plan));
}

#[test]
fn han_characters_come_from_cjk_fallback() {
    // "Hello 世界": the two Han characters (bytes 6..12) are missing from the face.
    let text = "Hello 世界";
    let primary = vec![
        sg(43, 0, 14),
        sg(72, 1, 11),
        sg(79, 2, 5),
        sg(79, 3, 5),
        sg(82, 4, 12),
        sg(3, 5, 6),
        sg(0, 6, 12),
        sg(0, 9, 12),
    ];
    let primary_only: i64 = [14, 11, 5, 5, 12, 6].iter().sum();
    let ranges = missing_ranges(&primary);
    assert_eq!(ranges, vec![(6, 8)]);
    let bytes = gap_text_ranges(&primary, &ranges, text.len());
    assert_eq!(bytes, vec![(6, 12)]);
    let chunk = &text[bytes[0].0..bytes[0].1];
    let script = choose_script(SCRIPT_HAN, chunk.chars().next());
    assert_eq!(script, SCRIPT_HAN);
    assert_eq!(font_data_from_script(script), FallbackFont::DroidSansFallback);
    let runs = vec![FallbackRun { script: Some(script), glyphs: vec![sg(1201, 0, 24), sg(1877, 3, 24)] }];
    let plan = shape_plan(&primary, &ranges, &runs);
    assert_eq!(plan.len(), 8);
    assert_eq!(plan.script(6), Some(SCRIPT_HAN));
    assert_eq!(plan.script(7), Some(SCRIPT_HAN));
    assert_eq!(plan.script(5), None);
    assert_eq!(plan.glyph(6).cluster, 6);
    assert_eq!(plan.glyph(7).cluster, 9);
    assert_eq!(plan.glyph(7).codepoint, 1877);
    assert!(plan.width as i64 > primary_only);
    assert_eq!(plan.width as i64, sum_advances(&plan));
}

#[test]
fn patched_clusters_stay_ordered_on_char_starts() {
    // "aé中b": é is two bytes, 中 three; both are missing and come from one run.
    let text = "aé中b";
    let primary = vec![sg(65, 0, 8), sg(0, 1, 8), sg(0, 3, 8), sg(66, 6, 8)];
    let ranges = missing_ranges(&primary);
    let bytes = gap_text_ranges(&primary, &ranges, text.len());
    assert_eq!(bytes, vec![(1, 6)]);
    let runs = vec![FallbackRun { script: Some(SCRIPT_HAN), glyphs: vec![sg(7, 0, 9), sg(8, 0, 2), sg(9, 2, 12)] }];
    let plan = shape_plan(&primary, &ranges, &runs);
    let clusters: Vec<usize> = (0..plan.len()).map(|i| plan.glyph(i).cluster).collect();
    assert_eq!(clusters, vec![0, 1, 1, 3, 6]);
    assert!(clusters.windows(2).all(|w| w[0] <= w[1]));
    assert!(clusters.iter().all(|&c| text.is_char_boundary(c)));
    for i in 0..plan.len() {
        if plan.script(i).is_some() {
            assert!([7, 8, 9].contains(&plan.glyph(i).codepoint));
        }
    }
}

#[test]
fn arrow_is_reshaped_with_symbol_fallback() {
    // "A→B": the arrow occupies bytes 1..4 and the shaper cannot name its script.
    let text = "A→B";
    let primary = vec![sg(36, 0, 10), sg(0, 1, 9), sg(37, 4, 10)];
    let ranges = missing_ranges(&primary);
    assert_eq!(ranges, vec![(1, 2)]);
    let bytes = gap_text_ranges(&primary, &ranges, text.len());
    assert_eq!(bytes, vec![(1, 4)]);
    let chunk = &text[bytes[0].0..bytes[0].1];
    let script = choose_script(SCRIPT_INVALID, chunk.chars().next());
    assert_eq!(script, SYMBOL_ARROW);
    assert_eq!(font_data_from_script(script), FallbackFont::NotoSansSymbols2);
    let runs = vec![FallbackRun { script: Some(script), glyphs: vec![sg(412, 0, 16)] }];
    let plan = shape_plan(&primary, &ranges, &runs);
    assert_eq!(plan.script(1), Some(SYMBOL_ARROW));
    assert_eq!(plan.script(0), None);
    assert_eq!(plan.glyph(1).cluster, 1);
    assert_eq!(plan.width, 36);
}

#[test]
fn fallback_runs_of_other_lengths_shift_later_gaps() {
    // Two gaps; the first is replaced by three glyphs, the second by one.
    let primary = vec![sg(5, 0, 4), sg(0, 1, 9), sg(6, 2, 4), sg(0, 3, 9), sg(0, 4, 9), sg(7, 5, 4)];
    let ranges = missing_ranges(&primary);
    assert_eq!(ranges, vec![(1, 2), (3, 5)]);
    let runs = vec![
        FallbackRun { script: Some(SCRIPT_LATIN), glyphs: vec![sg(50, 0, 1), sg(51, 0, 2), sg(52, 0, 3)] },
        FallbackRun { script: Some(SCRIPT_HAN), glyphs: vec![sg(60, 1, 7)] },
    ];
    let plan = shape_plan(&primary, &ranges, &runs);
    let cps: Vec<u32> = (0..plan.len()).map(|i| plan.glyph(i).codepoint).collect();
    assert_eq!(cps, vec![5, 50, 51, 52, 6, 60, 7]);
    let scripts: Vec<Option<u32>> = (0..plan.len()).map(|i| plan.script(i)).collect();
    assert_eq!(
        scripts,
        vec![None, Some(SCRIPT_LATIN), Some(SCRIPT_LATIN), Some(SCRIPT_LATIN), None, Some(SCRIPT_HAN), None]
    );
    assert_eq!(plan.glyph(5).cluster, 4);
    assert_eq!(plan.width, 4 + 1 + 2 + 3 + 4 + 7 + 4);
}

#[test]
fn fallback_tofu_stays() {
    let primary = vec![sg(0, 0, 8)];
    let ranges = missing_ranges(&primary);
    let runs = vec![FallbackRun { script: Some(SCRIPT_HAN), glyphs: vec![sg(0, 0, 5)] }];
    let plan = shape_plan(&primary, &ranges, &runs);
    assert_eq!(plan.glyph(0).codepoint, 0);
    assert_eq!(plan.width, 5);
}

#[test]
fn place_truncates_and_flips() {
    let s = ShapedGlyph { codepoint: 9, cluster: 3, x_advance: 700, y_advance: -65, x_offset: -1, y_offset: 130 };
    let g = place(&s, 10);
    assert_eq!(g.cluster, 13);
    assert_eq!(g.advance, Point { x: 10, y: -2 });
    assert_eq!(g.offset, Point { x: -1, y: -3 });
}

#[test]
fn crop_right_ends_with_mark() {
    let font = mark_font(3);
    let mut plan = latin_plan(&[(10, 10), (11, 10), (12, 10), (13, 10), (14, 10), (15, 10), (16, 10), (17, 10), (18, 10), (19, 10)]);
    font.crop_right(&mut plan, 45);
    assert!(plan.width <= 45);
    assert_eq!(plan.len(), 4);
    assert_eq!(plan.glyph(3).codepoint, 900);
    assert_eq!(plan.width, 36);
    assert_eq!(plan.width as i64, sum_advances(&plan));
}

#[test]
fn crop_right_leaves_fitting_plan() {
    let font = mark_font(3);
    let mut plan = latin_plan(&[(10, 10), (11, 10)]);
    font.crop_right(&mut plan, 20);
    assert_eq!(plan.len(), 2);
    assert_eq!(plan.width, 20);
}

#[test]
fn crop_right_drops_scripts_of_removed_glyphs() {
    let font = mark_font(3);
    let primary = vec![sg(5, 0, 10), sg(0, 1, 10), sg(0, 2, 10)];
    let ranges = missing_ranges(&primary);
    let runs = vec![FallbackRun { script: Some(SCRIPT_HAN), glyphs: vec![sg(70, 0, 10), sg(71, 1, 10)] }];
    let mut plan = shape_plan(&primary, &ranges, &runs);
    font.crop_right(&mut plan, 27);
    assert_eq!(plan.len(), 3);
    assert_eq!(plan.script(1), Some(SCRIPT_HAN));
    assert_eq!(plan.script(2), None);
    assert_eq!(plan.width, 26);
}

#[test]
fn crop_around_keeps_window_around_index() {
    let font = mark_font(3);
    let mut plan = latin_plan(&[(10, 10), (11, 10), (12, 10), (13, 10), (14, 10), (15, 10), (16, 10), (17, 10), (18, 10), (19, 10)]);
    let start = font.crop_around(&mut plan, 5, 45);
    let cps: Vec<u32> = (0..plan.len()).map(|i| plan.glyph(i).codepoint).collect();
    // The window grows 5, 4, 6, 3 (40 wide); the right mark pushes out 6, then
    // the left mark fits.
    assert_eq!(cps, vec![900, 13, 14, 15, 900]);
    assert_eq!(start, 3);
    assert_eq!(plan.width, 42);
    assert!(plan.width <= 45);
}

#[test]
fn crop_around_at_start_crops_right_only() {
    let font = mark_font(3);
    let mut plan = latin_plan(&[(10, 10), (11, 10), (12, 10), (13, 10), (14, 10)]);
    let start = font.crop_around(&mut plan, 0, 30);
    let cps: Vec<u32> = (0..plan.len()).map(|i| plan.glyph(i).codepoint).collect();
    assert_eq!(cps, vec![10, 11, 900]);
    assert_eq!(start, 0);
    assert_eq!(plan.width, 26);
}

#[test]
fn crop_around_at_end_crops_left_only() {
    let font = mark_font(3);
    let mut plan = latin_plan(&[(10, 10), (11, 10), (12, 10), (13, 10), (14, 10)]);
    let start = font.crop_around(&mut plan, 5, 30);
    let cps: Vec<u32> = (0..plan.len()).map(|i| plan.glyph(i).codepoint).collect();
    assert_eq!(cps, vec![900, 13, 14]);
    assert_eq!(start, 3);
    assert_eq!(plan.width, 26);
}

#[test]
fn crop_around_renumbers_scripts() {
    let font = mark_font(3);
    let primary = vec![sg(5, 0, 10), sg(6, 1, 10), sg(0, 2, 10), sg(7, 3, 10), sg(8, 4, 10)];
    let ranges = missing_ranges(&primary);
    let runs = vec![FallbackRun { script: Some(SCRIPT_HAN), glyphs: vec![sg(70, 0, 10)] }];
    let mut plan = shape_plan(&primary, &ranges, &runs);
    let start = font.crop_around(&mut plan, 2, 35);
    assert_eq!(start, 1);
    let cps: Vec<u32> = (0..plan.len()).map(|i| plan.glyph(i).codepoint).collect();
    assert_eq!(cps, vec![900, 6, 70, 900]);
    assert_eq!(plan.script(2), Some(SCRIPT_HAN));
    assert_eq!(plan.script(1), None);
}

#[test]
fn crop_around_leaves_fitting_plan() {
    let font = mark_font(3);
    let mut plan = latin_plan(&[(10, 10), (11, 10)]);
    assert_eq!(font.crop_around(&mut plan, 1, 25), 0);
    assert_eq!(plan.len(), 2);
}

#[test]
fn cut_point_breaks_after_word() {
    // "the quick brown fox", glyph per byte, space is glyph 3.
    let text = "the quick brown fox";
    let glyphs: Vec<(u32, i32)> =
        text.chars().map(|c| if c == ' ' { (3, 4) } else { (c as u32, 7) }).collect();
    let plan = latin_plan(&glyphs);
    let font = mark_font(3);
    let through_quick = plan.total_advance(9);
    assert_eq!(through_quick, 7 * 8 + 4);
    let (index, width) = font.cut_point(&plan, through_quick as u32);
    assert_eq!(index, 9);
    assert_eq!(width, through_quick as u32);
}

#[test]
fn cut_point_without_space_cuts_hard() {
    let plan = latin_plan(&[(10, 10), (11, 10), (12, 10), (13, 10)]);
    let font = mark_font(3);
    assert_eq!(font.cut_point(&plan, 25), (2, 20));
}

#[test]
fn cut_point_always_leaves_last_glyph() {
    let plan = latin_plan(&[(10, 10), (3, 10), (12, 10)]);
    let font = mark_font(3);
    assert_eq!(font.cut_point(&plan, 100), (1, 10));
}

#[test]
fn space_out_widens_all_but_last() {
    let mut plan = latin_plan(&[(10, 10), (11, 10), (12, 10)]);
    plan.space_out(2);
    assert_eq!(plan.glyph_advance(0), 12);
    assert_eq!(plan.glyph_advance(1), 12);
    assert_eq!(plan.glyph_advance(2), 10);
    assert_eq!(plan.width, 34);
    assert_eq!(plan.width as i64, sum_advances(&plan));
}

#[test]
fn space_out_zero_changes_nothing() {
    let mut plan = latin_plan(&[(10, 10), (11, 10)]);
    plan.space_out(0);
    assert_eq!(plan.width, 20);
    assert_eq!(plan.glyph_advance(0), 10);
}

#[test]
fn split_off_moves_tail_and_scripts() {
    let primary = vec![sg(5, 0, 10), sg(6, 1, 10), sg(0, 2, 10), sg(7, 3, 10)];
    let ranges = missing_ranges(&primary);
    let runs = vec![FallbackRun { script: Some(SCRIPT_HAN), glyphs: vec![sg(70, 0, 10)] }];
    let mut plan = shape_plan(&primary, &ranges, &runs);
    let original = plan.width;
    let w = plan.total_advance(2) as u32;
    let rest = plan.split_off(2, w);
    assert_eq!(plan.len(), 2);
    assert_eq!(plan.width, 20);
    assert_eq!(rest.len(), 2);
    assert_eq!(rest.width + w, original);
    assert_eq!(rest.script(0), Some(SCRIPT_HAN));
    assert_eq!(plan.script(2), None);
    assert_eq!(rest.glyph(1).codepoint, 7);
}

#[test]
fn index_and_advance_round_trip() {
    let plan = latin_plan(&[(10, 10), (11, 0), (12, 6), (13, 8)]);
    for i in 0..=plan.len() {
        let r = plan.index_from_advance(plan.total_advance(i));
        assert_eq!(plan.total_advance(r), plan.total_advance(i));
        assert!(r >= i);
    }
    assert_eq!(plan.index_from_advance(plan.total_advance(2)), 2);
    assert_eq!(plan.index_from_advance(plan.total_advance(1)), 2);
}

#[test]
fn index_from_advance_rounds_to_nearest_edge() {
    let plan = latin_plan(&[(10, 10), (11, 10)]);
    assert_eq!(plan.index_from_advance(3), 0);
    assert_eq!(plan.index_from_advance(5), 0);
    assert_eq!(plan.index_from_advance(6), 1);
    assert_eq!(plan.index_from_advance(14), 1);
    assert_eq!(plan.index_from_advance(100), 2);
    assert_eq!(plan.index_from_advance(-4), 0);
    assert_eq!(plan.total_advance(7), 20);
}

#[test]
fn set_size_twice_is_a_no_op() {
    let mut font = Font::new(3);
    assert!(font.set_size(524, 300));
    font.remeasure(524, 300, latin_plan(&[(900, 6)]), (11, 15));
    assert!(!font.set_size(524, 300));
    assert_eq!(font.x_heights, (11, 15));
    assert_eq!(font.ellipsis.width, 6);
    assert!(font.set_size(629, 300));
    assert!(font.set_size(524, 200));
}

#[test]
fn failed_resize_keeps_old_size() {
    let mut font = Font::new(3);
    font.remeasure(524, 300, latin_plan(&[(900, 6)]), (11, 15));
    // Asking for a new size records nothing until the resize succeeds.
    assert!(font.set_size(629, 300));
    assert_eq!(font.size, 524);
    assert!(font.set_size(629, 300));
    assert!(!font.set_size(524, 300));
    assert_eq!(font.ellipsis.width, 6);
}

#[test]
fn set_size_before_first_resize_always_asks() {
    let font = Font::new(3);
    assert!(font.set_size(0, 0));
    assert!(font.set_size(0, 0));
}

#[test]
fn default_plan_is_empty() {
    let plan = RenderPlan::default();
    assert_eq!(plan.len(), 0);
    assert_eq!(plan.width, 0);
    let g = GlyphPlan { codepoint: 1, cluster: 0, offset: Point { x: 0, y: 0 }, advance: Point { x: 1, y: 0 } };
    assert_eq!(g.advance.x, 1);
}

#[test]
fn tags_and_classifier() {
    assert_eq!(tag(b'w', b'g', b'h', b't'), 0x77676874);
    assert_eq!(script_from_code(0x2192), SYMBOL_ARROW);
    assert_eq!(script_from_code(0x2B95), SYMBOL_ARROW);
    assert_eq!(script_from_code(0x2B96), glyphplan::script::SCRIPT_UNKNOWN);
    assert_eq!(script_from_code(0x265A), glyphplan::script::SYMBOL_GAME_CHESS);
    assert_eq!(script_from_code(0x1F600), glyphplan::script::SYMBOL_EMOTICON);
    assert_eq!(script_from_code(0x2501), glyphplan::script::SYMBOL_GRAPHIC_FORM);
    assert_eq!(script_from_code(0x3009), glyphplan::script::PUNCTUATION_BRACKET_CJK);
    assert_eq!(script_from_code(0x41), glyphplan::script::SCRIPT_UNKNOWN);
    assert_eq!(choose_script(SCRIPT_LATIN, Some('→')), SCRIPT_LATIN);
    assert_eq!(choose_script(SCRIPT_INVALID, None), SCRIPT_INVALID);
}

#[test]
fn fallback_registry() {
    assert_eq!(font_data_from_script(glyphplan::script::SCRIPT_HANGUL), FallbackFont::DroidSansFallback);
    assert_eq!(font_data_from_script(glyphplan::script::SCRIPT_ARABIC), FallbackFont::NotoNaskhArabic);
    assert_eq!(font_data_from_script(glyphplan::script::SYMBOL_EMOTICON), FallbackFont::NotoEmoji);
    assert_eq!(font_data_from_script(glyphplan::script::SCRIPT_UNKNOWN), FallbackFont::NotoSansSymbols);
    assert_eq!(font_data_from_script(SCRIPT_LATIN), FallbackFont::NotoSansSymbols);
}

#[test]
fn gap_without_fallback_face_keeps_tofu() {
    let primary = vec![sg(5, 0, 10), sg(0, 1, 8), sg(6, 2, 10)];
    let ranges = missing_ranges(&primary);
    let runs = vec![FallbackRun { script: None, glyphs: vec![sg(0, 0, 8)] }];
    let plan = shape_plan(&primary, &ranges, &runs);
    assert_eq!(plan.len(), 3);
    assert_eq!(plan.glyph(1).codepoint, 0);
    assert_eq!(plan.script(1), None);
    assert_eq!(plan.width, 28);
}

#[test]
fn glyph_origins_follow_the_pen() {
    let primary = vec![
        ShapedGlyph { codepoint: 5, cluster: 0, x_advance: 640, y_advance: 0, x_offset: 64, y_offset: 128 },
        ShapedGlyph { codepoint: 6, cluster: 1, x_advance: 320, y_advance: 64, x_offset: 0, y_offset: 0 },
        ShapedGlyph { codepoint: 7, cluster: 2, x_advance: 128, y_advance: 0, x_offset: -64, y_offset: -64 },
    ];
    let plan = shape_plan(&primary, &missing_ranges(&primary), &Vec::new());
    let origins = plan.glyph_origins(Point { x: 100, y: 50 });
    assert_eq!(origins, vec![Point { x: 101, y: 48 }, Point { x: 110, y: 50 }, Point { x: 114, y: 52 }]);
}

#[test]
fn crop_around_start_with_wide_first_glyph_leaves_mark() {
    let font = mark_font(3);
    let primary = vec![sg(5, 0, 40), sg(0, 1, 10), sg(6, 2, 10)];
    let ranges = missing_ranges(&primary);
    let runs = vec![FallbackRun { script: Some(SCRIPT_HAN), glyphs: vec![sg(70, 0, 10)] }];
    let mut plan = shape_plan(&primary, &ranges, &runs);
    let start = font.crop_around(&mut plan, 0, 30);
    assert_eq!(start, 0);
    assert_eq!(plan.len(), 1);
    assert_eq!(plan.glyph(0).codepoint, 900);
    assert_eq!(plan.width, 6);
    assert_eq!(plan.script(0), None);
    assert_eq!(plan.script(1), None);
}
