use gpui::geometry::Point;
use gpui::line_wrapper::{Boundary, LineFragment, WrapBoundaryCandidate};
use gpui::noop_text_system::{CellGlyph, NoopTextSystem};
use gpui::text::{
    font_name_with_fallbacks, FontId, FontRun, FontStyle, GlyphId, RenderGlyphParams,
};

#[test]
fn font_name_fallbacks() {
    assert_eq!(font_name_with_fallbacks(".SystemUIFont", "Ubuntu"), "Ubuntu");
    assert_eq!(font_name_with_fallbacks(".ZedSans", "Ubuntu"), "IBM Plex Sans");
    assert_eq!(font_name_with_fallbacks("Zed Plex Sans", "Ubuntu"), "IBM Plex Sans");
    assert_eq!(font_name_with_fallbacks(".ZedMono", "Ubuntu"), "Lilex");
    assert_eq!(font_name_with_fallbacks("Zed Plex Mono", "Ubuntu"), "Lilex");
    assert_eq!(font_name_with_fallbacks("Fira Code", "Ubuntu"), "Fira Code");
    assert_eq!(font_name_with_fallbacks("", "Ubuntu"), "");
}

#[test]
fn font_name_fallbacks_resolve_once() {
    let once = font_name_with_fallbacks(".ZedMono", "Ubuntu");
    assert_eq!(font_name_with_fallbacks(once, "Ubuntu"), once);
}

#[test]
fn font_style_display_names() {
    assert_eq!(FontStyle::Normal.to_string(), "Normal");
    assert_eq!(FontStyle::Italic.to_string(), "Italic");
    assert_eq!(FontStyle::Oblique.to_string(), "Oblique");
    assert_eq!(FontStyle::default(), FontStyle::Normal);
}

#[test]
fn font_run_hash_key_merges_signed_zeros() {
    let plus = FontRun { len: 3, font_id: FontId(2), letter_spacing: Some(0.0f32.to_bits()) };
    let minus = FontRun { len: 3, font_id: FontId(2), letter_spacing: Some((-0.0f32).to_bits()) };
    assert_eq!(plus.hash_key(), minus.hash_key());
    assert_eq!(plus.hash_key(), (3, FontId(2), Some(0)));
    let one = FontRun { len: 3, font_id: FontId(2), letter_spacing: Some(1.0f32.to_bits()) };
    assert_eq!(one.hash_key().2, Some(1.0f32.to_bits()));
    let none = FontRun { len: 0, font_id: FontId(0), letter_spacing: None };
    assert_eq!(none.hash_key(), (0, FontId(0), None));
}

#[test]
fn font_runs_compare_letter_spacing_as_floats() {
    let plus = FontRun { len: 3, font_id: FontId(2), letter_spacing: Some(0.0f32.to_bits()) };
    let minus = FontRun { len: 3, font_id: FontId(2), letter_spacing: Some((-0.0f32).to_bits()) };
    assert_eq!(plus, minus);
    let hash_of = |run: &FontRun| {
        let mut hasher = std::collections::hash_map::DefaultHasher::new();
        std::hash::Hash::hash(run, &mut hasher);
        std::hash::Hasher::finish(&hasher)
    };
    assert_eq!(hash_of(&plus), hash_of(&minus));
    let nan = FontRun { len: 3, font_id: FontId(2), letter_spacing: Some(f32::NAN.to_bits()) };
    assert_ne!(nan, nan);
    let none = FontRun { len: 3, font_id: FontId(2), letter_spacing: None };
    assert_ne!(plus, none);
    let longer = FontRun { len: 4, font_id: FontId(2), letter_spacing: Some(0.0f32.to_bits()) };
    assert_ne!(plus, longer);
    assert!(gpui::text::floats_equal(1.5f32.to_bits(), 1.5f32.to_bits()));
    assert!(!gpui::text::floats_equal(1.5f32.to_bits(), 2.5f32.to_bits()));
}

#[test]
fn glyph_params_compare_sizes_as_floats() {
    let params = |size: f32, scale: f32| RenderGlyphParams {
        font_id: FontId(1),
        glyph_id: GlyphId(7),
        font_size_bits: size.to_bits(),
        subpixel_variant: Point { x: 0, y: 0 },
        scale_factor_bits: scale.to_bits(),
        is_emoji: false,
        subpixel_rendering: false,
        dilation: 0,
    };
    assert_eq!(params(0.0, 2.0), params(-0.0, 2.0));
    assert_eq!(params(12.0, 2.0), params(12.0, 2.0));
    assert_ne!(params(12.0, 2.0), params(13.0, 2.0));
    assert_ne!(params(12.0, 1.0), params(12.0, 2.0));
    assert_ne!(params(f32::NAN, 2.0), params(f32::NAN, 2.0));
}

#[test]
fn wrap_candidates_of_text() {
    let fragment: LineFragment<'_, f32> = LineFragment::text("aé😀");
    let candidates = fragment.wrap_boundary_candidates();
    assert_eq!(
        candidates,
        vec![
            WrapBoundaryCandidate::Char { character: 'a' },
            WrapBoundaryCandidate::Char { character: 'é' },
            WrapBoundaryCandidate::Char { character: '😀' },
        ]
    );
    let lens: Vec<usize> = candidates.iter().map(|c| c.len_utf8()).collect();
    assert_eq!(lens, vec![1, 2, 4]);
    assert_eq!(lens.iter().sum::<usize>(), "aé😀".len());
}

#[test]
fn wrap_candidates_of_element() {
    let fragment: LineFragment<'_, f32> = LineFragment::element(12.5, 7);
    let candidates = fragment.wrap_boundary_candidates();
    assert_eq!(candidates, vec![WrapBoundaryCandidate::Element { width: 12.5, len_utf8: 7 }]);
    assert_eq!(candidates[0].len_utf8(), 7);
    assert!(LineFragment::<'_, f32>::text("").wrap_boundary_candidates().is_empty());
}

#[test]
fn boundary_new() {
    let b = Boundary::new(5, 2);
    assert_eq!(b, Boundary { ix: 5, next_indent: 2 });
}

#[test]
fn noop_text_system_glyphs() {
    let system = NoopTextSystem::new();
    assert_eq!(system.glyph_for_char(FontId(0), 'm'), Some(GlyphId(1)));
    assert_eq!(system.glyph_for_char(FontId(0), '😀'), Some(GlyphId(2)));
    assert_eq!(system.font_id(&"any"), Ok(FontId(1)));
    assert!(system.all_font_names().is_empty());
    assert!(system.add_fonts(vec![vec![1, 2, 3]]).is_ok());
}

#[test]
fn noop_text_system_rasterizes_to_the_given_size() {
    let system = NoopTextSystem::new();
    let params = RenderGlyphParams {
        font_id: FontId(0),
        glyph_id: GlyphId(1),
        font_size_bits: 16.0f32.to_bits(),
        subpixel_variant: Point { x: 0, y: 0 },
        scale_factor_bits: 2.0f32.to_bits(),
        is_emoji: false,
        subpixel_rendering: false,
        dilation: 0,
    };
    let bounds = system.glyph_raster_bounds(&params).unwrap();
    assert_eq!(bounds, Default::default());
    let mut raster = bounds;
    raster.size.width.0 = 3;
    raster.size.height.0 = 4;
    let (size, bytes) = system.rasterize_glyph(&params, raster).unwrap();
    assert_eq!(size, raster.size);
    assert!(bytes.is_empty());
}

#[test]
fn noop_layout_line_cells() {
    let system = NoopTextSystem::new();
    let layout = system.layout_line_cells("a😀b");
    assert_eq!(layout.len, 6);
    assert_eq!(layout.width_cells, 4);
    assert_eq!(layout.runs.len(), 1);
    assert_eq!(layout.runs[0].font_id, FontId(0));
    assert_eq!(
        layout.runs[0].glyphs,
        vec![
            CellGlyph { id: GlyphId(1), index: 0, is_emoji: false, offset_cells: 0, advance_cells: 1 },
            CellGlyph { id: GlyphId(2), index: 1, is_emoji: true, offset_cells: 1, advance_cells: 2 },
            CellGlyph { id: GlyphId(1), index: 5, is_emoji: false, offset_cells: 3, advance_cells: 1 },
        ]
    );
}

#[test]
fn noop_layout_empty_line() {
    let layout = NoopTextSystem::new().layout_line_cells("");
    assert!(layout.runs.is_empty());
    assert_eq!(layout.width_cells, 0);
    assert_eq!(layout.len, 0);
}

#[test]
fn noop_layout_glyphs_are_contiguous() {
    let layout = NoopTextSystem::new().layout_line_cells("héllo 😀 wörld");
    let glyphs = &layout.runs[0].glyphs;
    for pair in glyphs.windows(2) {
        assert_eq!(pair[1].offset_cells, pair[0].offset_cells + pair[0].advance_cells);
        assert!(pair[1].index > pair[0].index);
    }
    let last = glyphs.last().unwrap();
    assert_eq!(layout.width_cells, last.offset_cells + last.advance_cells);
}
