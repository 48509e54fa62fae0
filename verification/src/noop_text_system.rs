//! A text system that needs no fonts: every character is one glyph, as wide
//! as the letter `m`, except characters outside the Basic Multilingual
//! Plane, which count as emoji and are twice as wide. Tests and headless
//! platforms use it.
//!
//! Layout here is in cells, the advance of one ordinary glyph; turning
//! cells into pixels is float arithmetic done by the caller, glyph by glyph.

use vstd::prelude::*;
use vstd::string::StringSliceAdditionalSpecFns;
use crate::geometry::{Bounds, DevicePixels, Size, zero_device_bounds};
use crate::text::{FontId, GlyphId, RenderGlyphParams};
use crate::unicode::{
    chars_of, len_utf16, len_utf8, utf16_width, utf8_len, utf8_width, lemma_utf8_len_concat,
    lemma_utf8_len_is_encoding_length, lemma_utf8_len_push,
};

verus! {

/// A text system without fonts.
#[derive(Clone, Copy, Debug, PartialEq, Eq)]
pub struct NoopTextSystem;

/// The error a text system reports; the no-op system never reports one.
#[derive(Clone, Copy, Debug, PartialEq, Eq)]
pub struct TextSystemError;

/// The no-op glyph of a character: its UTF-16 length.
pub open spec fn noop_glyph(c: char) -> GlyphId {
    GlyphId(utf16_width(c) as u32)
}

/// Whether the no-op system treats a character as an emoji: exactly when
/// it takes two UTF-16 code units.
pub open spec fn noop_is_emoji(c: char) -> bool {
    utf16_width(c) == 2
}

/// The cells a character advances the pen by: two for an emoji, one else.
pub open spec fn cells_of(c: char) -> nat {
    if noop_is_emoji(c) {
        2
    } else {
        1
    }
}

/// The cells a run of characters takes.
pub open spec fn cells(s: Seq<char>) -> nat
    decreases s.len(),
{
    if s.len() == 0 {
        0
    } else {
        cells_of(s[0]) + cells(s.drop_first())
    }
}

/// A glyph of a laid-out line, positioned in cells.
#[derive(Clone, Copy, Debug, PartialEq, Eq, Structural)]
pub struct CellGlyph {
    /// The glyph.
    pub id: GlyphId,
    /// The byte offset of its character in the text.
    pub index: usize,
    /// Whether the glyph is an emoji.
    pub is_emoji: bool,
    /// Where the glyph starts, in cells from the start of the line.
    pub offset_cells: usize,
    /// How far the glyph advances the pen, in cells.
    pub advance_cells: usize,
}

/// A run of glyphs in one font.
#[derive(Clone, Debug, PartialEq, Eq)]
pub struct CellRun {
    /// The font of the run.
    pub font_id: FontId,
    /// The glyphs of the run, in order.
    pub glyphs: Vec<CellGlyph>,
}

/// A laid-out line, in cells.
#[derive(Clone, Debug, PartialEq, Eq)]
pub struct CellLineLayout {
    /// The runs of the line: one run of every glyph, or none for an empty
    /// line.
    pub runs: Vec<CellRun>,
    /// The width of the line in cells.
    pub width_cells: usize,
    /// The length of the text in UTF-8 bytes.
    pub len: usize,
}

/// The glyph the no-op system lays out for the `k`-th character of `s`.
pub open spec fn glyph_at(s: Seq<char>, k: int) -> CellGlyph {
    CellGlyph {
        id: noop_glyph(s[k]),
        index: utf8_len(s.take(k)) as usize,
        is_emoji: noop_is_emoji(s[k]),
        offset_cells: cells(s.take(k)) as usize,
        advance_cells: cells_of(s[k]) as usize,
    }
}

/// The glyphs the no-op system lays out for `s`, in order.
pub open spec fn glyphs_of(s: Seq<char>) -> Seq<CellGlyph> {
    Seq::new(s.len(), |k: int| glyph_at(s, k))
}

proof fn lemma_cells_concat(a: Seq<char>, b: Seq<char>)
    ensures
        cells(a + b) == cells(a) + cells(b),
    decreases a.len(),
{
    if a.len() > 0 {
        assert((a + b).drop_first() =~= a.drop_first() + b);
        lemma_cells_concat(a.drop_first(), b);
    } else {
        assert(a + b =~= b);
    }
}

proof fn lemma_cells_push(a: Seq<char>, c: char)
    ensures
        cells(a.push(c)) == cells(a) + cells_of(c),
{
    assert(a.push(c) =~= a + seq![c]);
    lemma_cells_concat(a, seq![c]);
    assert(seq![c].drop_first() =~= Seq::<char>::empty());
    assert(cells(seq![c]) == cells_of(seq![c][0]) + cells(seq![c].drop_first()));
}

/// A line never takes more cells than it has UTF-8 bytes.
proof fn lemma_cells_le_bytes(s: Seq<char>)
    ensures
        cells(s) <= utf8_len(s),
    decreases s.len(),
{
    if s.len() > 0 {
        lemma_cells_le_bytes(s.drop_first());
    }
}

/// Whether a glyph is an emoji exactly when its character takes two UTF-16
/// code units, and advances two cells if so and one otherwise.
pub open spec fn glyph_matches_width(g: CellGlyph, c: char) -> bool {
    &&& g.is_emoji == (utf16_width(c) == 2)
    &&& utf16_width(c) == 2 ==> g.advance_cells == 2
    &&& utf16_width(c) != 2 ==> g.advance_cells == 1
}

/// The characters of `s` that take two UTF-16 code units, in order.
pub open spec fn wide_chars(s: Seq<char>) -> Seq<char> {
    s.filter(|c: char| utf16_width(c) == 2)
}

/// A run of characters takes one cell per character and one more for each
/// character that takes two UTF-16 code units.
pub proof fn law_cells_count(s: Seq<char>)
    ensures
        cells(s) == s.len() + wide_chars(s).len(),
    decreases s.len(),
{
    if s.len() > 0 {
        law_cells_count(s.drop_last());
        assert(s =~= s.drop_last().push(s.last()));
        lemma_cells_push(s.drop_last(), s.last());
        reveal(Seq::filter);
    }
}

/// Each glyph of a laid-out line is an emoji exactly when its character
/// takes two UTF-16 code units, and advances the pen by two cells if it is
/// an emoji and by one otherwise.
pub proof fn law_glyph_advance(s: Seq<char>, k: int)
    requires
        0 <= k < s.len(),
    ensures
        glyphs_of(s)[k].is_emoji == (utf16_width(s[k]) == 2),
        glyphs_of(s)[k].is_emoji ==> glyphs_of(s)[k].advance_cells == 2,
        !glyphs_of(s)[k].is_emoji ==> glyphs_of(s)[k].advance_cells == 1,
        glyphs_of(s)[k].id == GlyphId(utf16_width(s[k]) as u32),
{
}

impl NoopTextSystem {
    /// Creates the no-op text system.
    pub fn new() -> (r: Self)
        ensures
            r == NoopTextSystem,
    {
        NoopTextSystem
    }

    /// Accepts fonts and ignores them.
    pub fn add_fonts(&self, fonts: Vec<Vec<u8>>) -> (r: Result<(), TextSystemError>)
        ensures
            r is Ok,
    {
        Ok(())
    }

    /// The names of the available fonts: none.
    pub fn all_font_names(&self) -> (r: Vec<String>)
        ensures
            r@.len() == 0,
    {
        Vec::new()
    }

    /// The font for any descriptor: font 1.
    pub fn font_id<F>(&self, descriptor: &F) -> (r: Result<FontId, TextSystemError>)
        ensures
            r == Ok::<FontId, TextSystemError>(FontId(1)),
    {
        Ok(FontId(1))
    }

    /// The glyph for a character, in any font: its UTF-16 length.
    pub fn glyph_for_char(&self, font_id: FontId, ch: char) -> (r: Option<GlyphId>)
        ensures
            r == Some(noop_glyph(ch)),
    {
        Some(GlyphId(len_utf16(ch) as u32))
    }

    /// The raster bounds of any glyph: empty.
    pub fn glyph_raster_bounds(&self, params: &RenderGlyphParams) -> (r: Result<
        Bounds<DevicePixels>,
        TextSystemError,
    >)
        ensures
            r == Ok::<Bounds<DevicePixels>, TextSystemError>(zero_device_bounds_spec()),
    {
        Ok(zero_device_bounds())
    }

    /// Rasterizes a glyph to no pixels, at the size of the given bounds.
    pub fn rasterize_glyph(
        &self,
        params: &RenderGlyphParams,
        raster_bounds: Bounds<DevicePixels>,
    ) -> (r: Result<(Size<DevicePixels>, Vec<u8>), TextSystemError>)
        ensures
            r matches Ok((size, bytes)) && size == raster_bounds.size && bytes@.len() == 0,
    {
        Ok((raster_bounds.size, Vec::new()))
    }

    /// Lays out a line: one glyph per character, in font 0, each starting
    /// where the previous one ended; an empty line has no runs and no width.
    pub fn layout_line_cells(&self, text: &str) -> (r: CellLineLayout)
        ensures
            r.len == text.spec_bytes().len(),
            text@.len() == 0 ==> r.runs@.len() == 0 && r.width_cells == 0,
            text@.len() > 0 ==> r.runs@.len() == 1 && r.runs@[0].font_id == FontId(0)
                && r.runs@[0].glyphs@ == glyphs_of(text@) && r.width_cells == cells(text@),
            text@.len() > 0 ==> forall|k: int|
                0 <= k < text@.len() ==> {
                    &&& (#[trigger] r.runs@[0].glyphs@[k]).is_emoji == (utf16_width(text@[k]) == 2)
                    &&& utf16_width(text@[k]) == 2 ==> r.runs@[0].glyphs@[k].advance_cells == 2
                    &&& utf16_width(text@[k]) != 2 ==> r.runs@[0].glyphs@[k].advance_cells == 1
                },
            r.width_cells == text@.len() + wide_chars(text@).len(),
    {
        let chars = chars_of(text);
        let byte_len = text.as_bytes().len();
        let ghost s = chars@;
        proof {
            lemma_utf8_len_is_encoding_length(s);
        }
        assert(utf8_len(s) == byte_len);
        let mut glyphs: Vec<CellGlyph> = Vec::new();
        let mut ix: usize = 0;
        let mut position: usize = 0;
        let mut i: usize = 0;
        assert(s.take(0) =~= Seq::<char>::empty());
        while i < chars.len()
            invariant
                s == chars@,
                s == text@,
                utf8_len(s) == byte_len,
                i <= chars.len(),
                ix == utf8_len(s.take(i as int)),
                position == cells(s.take(i as int)),
                glyphs@ == glyphs_of(s.take(i as int)),
            decreases chars.len() - i,
        {
            let c = chars[i];
            proof {
                assert(s.take(i + 1) =~= s.take(i as int).push(c));
                lemma_utf8_len_push(s.take(i as int), c);
                lemma_cells_push(s.take(i as int), c);
                assert(s =~= s.take(i + 1) + s.skip(i + 1));
                lemma_utf8_len_concat(s.take(i + 1), s.skip(i + 1));
                lemma_cells_le_bytes(s.take(i + 1));
            }
            let id = len_utf16(c) as u32;
            let is_emoji = id == 2;
            let advance: usize = if is_emoji {
                2
            } else {
                1
            };
            glyphs.push(CellGlyph { id: GlyphId(id), index: ix, is_emoji, offset_cells: position, advance_cells: advance });
            proof {
                assert forall|k: int| 0 <= k < i + 1 implies glyphs@[k] == glyph_at(
                    s.take(i + 1),
                    k,
                ) by {
                    if k < i {
                        assert(s.take(i + 1).take(k) =~= s.take(i as int).take(k));
                        assert(s.take(i + 1)[k] == s.take(i as int)[k]);
                    } else {
                        assert(s.take(i + 1).take(k) =~= s.take(i as int));
                    }
                }
                assert(glyphs@ =~= glyphs_of(s.take(i + 1)));
            }
            ix = ix + len_utf8(c);
            position = position + advance;
            i = i + 1;
        }
        assert(s.take(chars.len() as int) =~= s);
        proof {
            law_cells_count(s);
            assert forall|k: int| 0 <= k < s.len() implies #[trigger] glyph_matches_width(
                glyphs@[k],
                s[k],
            ) by {
                law_glyph_advance(s, k);
            }
            if s.len() == 0 {
                assert(wide_chars(s).len() == 0) by {
                    reveal(Seq::filter);
                }
            }
        }
        let mut runs: Vec<CellRun> = Vec::new();
        let width = if glyphs.len() > 0 {
            runs.push(CellRun { font_id: FontId(0), glyphs });
            position
        } else {
            0
        };
        CellLineLayout { runs, width_cells: width, len: byte_len }
    }
}

/// The empty rectangle at the origin, in device pixels.
pub open spec fn zero_device_bounds_spec() -> Bounds<DevicePixels> {
    Bounds {
        origin: crate::geometry::Point { x: DevicePixels(0), y: DevicePixels(0) },
        size: Size { width: DevicePixels(0), height: DevicePixels(0) },
    }
}

/// Glyphs of a laid-out line follow each other without gaps or overlaps,
/// and their byte offsets advance by each character's UTF-8 length: each
/// glyph starts where the previous one ends, in cells and in bytes.
pub proof fn law_glyphs_are_contiguous(s: Seq<char>, k: int)
    requires
        0 <= k,
        k + 1 < s.len(),
        utf8_len(s) <= usize::MAX,
    ensures
        glyphs_of(s)[k + 1].offset_cells == glyphs_of(s)[k].offset_cells + glyphs_of(s)[k].advance_cells,
        glyphs_of(s)[k + 1].index == glyphs_of(s)[k].index + utf8_width(s[k]),
        glyphs_of(s)[0].offset_cells == 0,
        glyphs_of(s)[0].index == 0,
{
    assert(s.take(k + 1) =~= s.take(k).push(s[k]));
    lemma_cells_push(s.take(k), s[k]);
    lemma_utf8_len_push(s.take(k), s[k]);
    assert(s.take(k + 1) =~= s.take(k) + s.subrange(k, k + 1));
    lemma_cells_concat(s.take(k), s.skip(k));
    lemma_utf8_len_concat(s.take(k), s.skip(k));
    assert(s =~= s.take(k) + s.skip(k));
    assert(s =~= s.take(k + 1) + s.skip(k + 1));
    lemma_cells_concat(s.take(k + 1), s.skip(k + 1));
    lemma_utf8_len_concat(s.take(k + 1), s.skip(k + 1));
    lemma_cells_le_bytes(s.take(k + 1));
    assert(s.take(0) =~= Seq::<char>::empty());
}

} // verus!
