//! Font and glyph identifiers, font styles, the raster parameters of a glyph
//! and the well-known font-name aliases.
//!
//! Sizes and scale factors are floats in pixels; the types here carry them
//! by their IEEE-754 bit patterns (`f32::to_bits`), which is also how they
//! enter hashes.

use vstd::prelude::*;
use crate::geometry::Point;
use crate::unicode::str_eq;

verus! {

/// Number of subpixel glyph variants along the X axis.
pub const SUBPIXEL_VARIANTS_X: u8 = 4;

/// Number of subpixel glyph variants along the Y axis.
pub const SUBPIXEL_VARIANTS_Y: u8 = 1;

/// An opaque identifier for a specific font family.
#[derive(Clone, Copy, Debug, PartialEq, Eq, Hash, Structural)]
pub struct FontFamilyId(pub usize);

/// An opaque identifier for a specific font.
#[derive(Clone, Copy, Debug, PartialEq, Eq, Hash, Structural)]
pub struct FontId(pub usize);

/// An identifier for a specific glyph, as returned by a text system's
/// `layout_line`.
#[derive(Clone, Copy, Debug, PartialEq, Eq, Hash, Structural)]
pub struct GlyphId(pub u32);

/// A unique identifier for the image cache.
#[derive(Clone, Copy, Debug, PartialEq, Eq, PartialOrd, Ord, Hash, Structural)]
pub struct ImageId(pub usize);

/// Parameters for rendering one frame of a cached image.
#[derive(Clone, Copy, Debug, PartialEq, Eq, Hash, Structural)]
pub struct RenderImageParams {
    /// The image.
    pub image_id: ImageId,
    /// The frame of the image.
    pub frame_index: usize,
}

/// Parameters for rendering a glyph, used as cache keys for raster bounds
/// and sprite-atlas entries. Equality compares the float fields as floats;
/// hashing hashes their bits.
#[derive(Clone, Copy, Debug, Eq, Hash)]
pub struct RenderGlyphParams {
    /// The font.
    pub font_id: FontId,
    /// The glyph within the font.
    pub glyph_id: GlyphId,
    /// The font size in pixels, as the bits of an `f32`.
    pub font_size_bits: u32,
    /// Which subpixel offset the glyph is rendered at.
    pub subpixel_variant: Point<u8>,
    /// The window scale factor, as the bits of an `f32`.
    pub scale_factor_bits: u32,
    /// Whether the glyph is an emoji (rendered in colour).
    pub is_emoji: bool,
    /// Whether the glyph is rendered with subpixel antialiasing.
    pub subpixel_rendering: bool,
    /// How much the glyph is dilated for its colour.
    pub dilation: u8,
}

/// Allows italic or oblique faces to be selected.
#[derive(Clone, Copy, Debug, PartialEq, Eq, Hash, Structural)]
pub enum FontStyle {
    /// A face that is neither italic nor obliqued.
    Normal,
    /// A form that is generally cursive in nature.
    Italic,
    /// A typically-sloped version of the regular face.
    Oblique,
}

impl Default for FontStyle {
    /// A face is upright unless set otherwise.
    fn default() -> (r: Self)
        ensures
            r == FontStyle::Normal,
    {
        FontStyle::Normal
    }
}

/// How a font style is displayed: the name of its variant.
pub open spec fn style_name(s: FontStyle) -> Seq<char> {
    match s {
        FontStyle::Normal => seq!['N', 'o', 'r', 'm', 'a', 'l'],
        FontStyle::Italic => seq!['I', 't', 'a', 'l', 'i', 'c'],
        FontStyle::Oblique => seq!['O', 'b', 'l', 'i', 'q', 'u', 'e'],
    }
}

impl FontStyle {
    /// The style as it is displayed: the name of its variant.
    pub fn to_string(&self) -> (r: String)
        ensures
            r@ == style_name(*self),
    {
        let name = match self {
            FontStyle::Normal => {
                proof {
                    reveal_strlit("Normal");
                }
                "Normal"
            },
            FontStyle::Italic => {
                proof {
                    reveal_strlit("Italic");
                }
                "Italic"
            },
            FontStyle::Oblique => {
                proof {
                    reveal_strlit("Oblique");
                }
                "Oblique"
            },
        };
        assert(name@ =~= style_name(*self));
        name.to_owned()
    }
}

/// The bit pattern of a float zero of either sign maps to that of positive
/// zero; every other pattern is kept.
pub open spec fn zero_normalized(bits: u32) -> u32 {
    if bits == 0x8000_0000 {
        0
    } else {
        bits
    }
}

/// A run of text with a single font. Equality compares the letter spacing
/// as a float.
#[derive(Clone, Copy, Debug, Eq)]
pub struct FontRun {
    /// The length of the run in UTF-8 bytes.
    pub len: usize,
    /// The font of the run.
    pub font_id: FontId,
    /// Extra spacing between letters in pixels, as the bits of an `f32`.
    pub letter_spacing: Option<u32>,
}

impl FontRun {
    /// What the run is hashed by: its length, its font, and its letter
    /// spacing with both zeros counted as one (they compare equal as floats).
    pub fn hash_key(&self) -> (r: (usize, FontId, Option<u32>))
        ensures
            r.0 == self.len,
            r.1 == self.font_id,
            r.2 == match self.letter_spacing {
                Some(bits) => Some(zero_normalized(bits)),
                None => None,
            },
    {
        let spacing = match self.letter_spacing {
            Some(bits) => {
                if bits == 0x8000_0000 {
                    Some(0u32)
                } else {
                    Some(bits)
                }
            },
            None => None,
        };
        (self.len, self.font_id, spacing)
    }
}

/// The concrete font a well-known virtual font name stands for.
pub open spec fn font_name_fallback(name: Seq<char>, system: Seq<char>) -> Seq<char> {
    if name == seq!['.', 'S', 'y', 's', 't', 'e', 'm', 'U', 'I', 'F', 'o', 'n', 't'] {
        system
    } else if name == seq!['.', 'Z', 'e', 'd', 'S', 'a', 'n', 's'] || name == seq!['Z', 'e', 'd', ' ', 'P', 'l', 'e', 'x', ' ', 'S', 'a', 'n', 's'] {
        seq!['I', 'B', 'M', ' ', 'P', 'l', 'e', 'x', ' ', 'S', 'a', 'n', 's']
    } else if name == seq!['.', 'Z', 'e', 'd', 'M', 'o', 'n', 'o'] || name == seq!['Z', 'e', 'd', ' ', 'P', 'l', 'e', 'x', ' ', 'M', 'o', 'n', 'o'] {
        seq!['L', 'i', 'l', 'e', 'x']
    } else {
        name
    }
}

/// Maps well-known virtual font names to their concrete equivalents: the
/// system UI font to `system`, the sans and mono aliases (the retired
/// "Zed Plex" names among them) to IBM Plex Sans and Lilex; any other name
/// is returned unchanged.
pub fn font_name_with_fallbacks<'a>(name: &'a str, system: &'a str) -> (r: &'a str)
    ensures
        r@ == font_name_fallback(name@, system@),
{
    proof {
        reveal_strlit(".SystemUIFont");
        reveal_strlit(".ZedSans");
        reveal_strlit("Zed Plex Sans");
        reveal_strlit(".ZedMono");
        reveal_strlit("Zed Plex Mono");
        reveal_strlit("IBM Plex Sans");
        reveal_strlit("Lilex");
    }
    let system_ui = ".SystemUIFont";
    let zed_sans = ".ZedSans";
    let plex_sans = "Zed Plex Sans";
    let zed_mono = ".ZedMono";
    let plex_mono = "Zed Plex Mono";
    assert(system_ui@ =~= seq!['.', 'S', 'y', 's', 't', 'e', 'm', 'U', 'I', 'F', 'o', 'n', 't']);
    assert(zed_sans@ =~= seq!['.', 'Z', 'e', 'd', 'S', 'a', 'n', 's']);
    assert(plex_sans@ =~= seq!['Z', 'e', 'd', ' ', 'P', 'l', 'e', 'x', ' ', 'S', 'a', 'n', 's']);
    assert(zed_mono@ =~= seq!['.', 'Z', 'e', 'd', 'M', 'o', 'n', 'o']);
    assert(plex_mono@ =~= seq!['Z', 'e', 'd', ' ', 'P', 'l', 'e', 'x', ' ', 'M', 'o', 'n', 'o']);
    if str_eq(name, system_ui) {
        system
    } else if str_eq(name, zed_sans) || str_eq(name, plex_sans) {
        let r = "IBM Plex Sans";
        assert(r@ =~= seq!['I', 'B', 'M', ' ', 'P', 'l', 'e', 'x', ' ', 'S', 'a', 'n', 's']);
        r
    } else if str_eq(name, zed_mono) || str_eq(name, plex_mono) {
        let r = "Lilex";
        assert(r@ =~= seq!['L', 'i', 'l', 'e', 'x']);
        r
    } else {
        name
    }
}

/// A name that is not one of the virtual names is its own concrete font, so
/// resolving a resolved name changes nothing unless the system font is
/// itself given by a virtual name.
pub proof fn law_fallback_idempotent(name: Seq<char>, system: Seq<char>)
    requires
        font_name_fallback(system, system) == system,
    ensures
        font_name_fallback(font_name_fallback(name, system), system) == font_name_fallback(
            name,
            system,
        ),
{
    let ibm = seq!['I', 'B', 'M', ' ', 'P', 'l', 'e', 'x', ' ', 'S', 'a', 'n', 's'];
    let lilex = seq!['L', 'i', 'l', 'e', 'x'];
    assert(ibm[0] != seq!['.', 'S', 'y', 's', 't', 'e', 'm', 'U', 'I', 'F', 'o', 'n', 't'][0]);
    assert(ibm.len() != seq!['.', 'Z', 'e', 'd', 'S', 'a', 'n', 's'].len());
    assert(ibm.len() == seq!['Z', 'e', 'd', ' ', 'P', 'l', 'e', 'x', ' ', 'S', 'a', 'n', 's'].len());
    assert(ibm[0] != seq!['Z', 'e', 'd', ' ', 'P', 'l', 'e', 'x', ' ', 'S', 'a', 'n', 's'][0]);
    assert(ibm.len() != seq!['.', 'Z', 'e', 'd', 'M', 'o', 'n', 'o'].len());
    assert(ibm[0] != seq!['Z', 'e', 'd', ' ', 'P', 'l', 'e', 'x', ' ', 'M', 'o', 'n', 'o'][0]);
    assert(lilex.len() != seq!['.', 'S', 'y', 's', 't', 'e', 'm', 'U', 'I', 'F', 'o', 'n', 't'].len());
    assert(lilex.len() != seq!['.', 'Z', 'e', 'd', 'S', 'a', 'n', 's'].len());
    assert(lilex.len() != seq!['Z', 'e', 'd', ' ', 'P', 'l', 'e', 'x', ' ', 'S', 'a', 'n', 's'].len());
    assert(lilex.len() != seq!['.', 'Z', 'e', 'd', 'M', 'o', 'n', 'o'].len());
    assert(lilex.len() != seq!['Z', 'e', 'd', ' ', 'P', 'l', 'e', 'x', ' ', 'M', 'o', 'n', 'o'].len());
}

/// Whether the bits are those of a float that is not a number.
pub open spec fn is_nan_bits(bits: u32) -> bool {
    &&& bits & 0x7f80_0000 == 0x7f80_0000
    &&& bits & 0x007f_ffff != 0
}

/// Whether two floats, given by their bits, compare equal as floats: both
/// zeros of either sign, or the same bits of a number.
pub open spec fn float_bits_eq(a: u32, b: u32) -> bool {
    ||| (a & 0x7fff_ffff == 0 && b & 0x7fff_ffff == 0)
    ||| (a == b && !is_nan_bits(a))
}

/// Whether two optional floats, given by their bits, compare equal.
pub open spec fn option_float_bits_eq(a: Option<u32>, b: Option<u32>) -> bool {
    match (a, b) {
        (Some(x), Some(y)) => float_bits_eq(x, y),
        (None, None) => true,
        _ => false,
    }
}

/// Compares two floats, given by their bits, as `==` on `f32` does.
pub fn floats_equal(a: u32, b: u32) -> (r: bool)
    ensures
        r == float_bits_eq(a, b),
{
    (a & 0x7fff_ffff == 0 && b & 0x7fff_ffff == 0) || (a == b && !(a & 0x7f80_0000 == 0x7f80_0000
        && a & 0x007f_ffff != 0))
}

/// Compares two optional floats, given by their bits, as `==` does.
pub fn optional_floats_equal(a: Option<u32>, b: Option<u32>) -> (r: bool)
    ensures
        r == option_float_bits_eq(a, b),
{
    match (a, b) {
        (Some(x), Some(y)) => floats_equal(x, y),
        (None, None) => true,
        _ => false,
    }
}

/// Whether two glyph parameters are equal: the same font, glyph, subpixel
/// variant, flags and dilation, and sizes and scale factors equal as floats.
pub open spec fn glyph_params_eq(a: RenderGlyphParams, b: RenderGlyphParams) -> bool {
    &&& a.font_id == b.font_id
    &&& a.glyph_id == b.glyph_id
    &&& float_bits_eq(a.font_size_bits, b.font_size_bits)
    &&& a.subpixel_variant == b.subpixel_variant
    &&& float_bits_eq(a.scale_factor_bits, b.scale_factor_bits)
    &&& a.is_emoji == b.is_emoji
    &&& a.subpixel_rendering == b.subpixel_rendering
    &&& a.dilation == b.dilation
}

impl PartialEq for RenderGlyphParams {
    fn eq(&self, other: &Self) -> (r: bool) {
        self.font_id == other.font_id && self.glyph_id == other.glyph_id && floats_equal(
            self.font_size_bits,
            other.font_size_bits,
        ) && self.subpixel_variant == other.subpixel_variant && floats_equal(
            self.scale_factor_bits,
            other.scale_factor_bits,
        ) && self.is_emoji == other.is_emoji && self.subpixel_rendering == other.subpixel_rendering
            && self.dilation == other.dilation
    }
}

impl vstd::std_specs::cmp::PartialEqSpecImpl for RenderGlyphParams {
    open spec fn obeys_eq_spec() -> bool {
        true
    }

    open spec fn eq_spec(&self, other: &Self) -> bool {
        glyph_params_eq(*self, *other)
    }
}

/// Whether two runs are equal: the same length and font, and letter
/// spacings equal as floats.
pub open spec fn font_runs_eq(a: FontRun, b: FontRun) -> bool {
    &&& a.len == b.len
    &&& a.font_id == b.font_id
    &&& option_float_bits_eq(a.letter_spacing, b.letter_spacing)
}

impl PartialEq for FontRun {
    fn eq(&self, other: &Self) -> (r: bool) {
        self.len == other.len && self.font_id == other.font_id && optional_floats_equal(
            self.letter_spacing,
            other.letter_spacing,
        )
    }
}

impl vstd::std_specs::cmp::PartialEqSpecImpl for FontRun {
    open spec fn obeys_eq_spec() -> bool {
        true
    }

    open spec fn eq_spec(&self, other: &Self) -> bool {
        font_runs_eq(*self, *other)
    }
}

/// Feeds a run's hash key to a hasher through std's `Hash` impl for the
/// key's tuple type (`<(usize, FontId, Option<u32>) as Hash>::hash`). Nothing
/// is claimed of what the hasher holds afterwards.
#[verifier::external_body]
fn hash_key_into<H: core::hash::Hasher>(key: (usize, FontId, Option<u32>), state: &mut H) {
    core::hash::Hash::hash(&key, state)
}

impl core::hash::Hash for FontRun {
    /// Hashes the run by its hash key, so that runs that compare equal
    /// hash alike.
    fn hash<H: core::hash::Hasher>(&self, state: &mut H) {
        let key = self.hash_key();
        hash_key_into(key, state);
    }
}

/// Runs that compare equal have the same hash key, so hashing agrees with
/// equality: both zeros of the letter spacing hash alike.
pub proof fn law_equal_runs_share_hash_key(a: FontRun, b: FontRun)
    requires
        font_runs_eq(a, b),
    ensures
        a.len == b.len,
        a.font_id == b.font_id,
        match (a.letter_spacing, b.letter_spacing) {
            (Some(x), Some(y)) => zero_normalized(x) == zero_normalized(y),
            (None, None) => true,
            _ => false,
        },
{
    if let (Some(x), Some(y)) = (a.letter_spacing, b.letter_spacing) {
        if x & 0x7fff_ffff == 0 && y & 0x7fff_ffff == 0 {
            assert(x & 0x7fff_ffff == 0 ==> (x == 0 || x == 0x8000_0000)) by (bit_vector);
            assert(y & 0x7fff_ffff == 0 ==> (y == 0 || y == 0x8000_0000)) by (bit_vector);
        }
    }
}

} // verus!
