//! The sprite-atlas vocabulary: what a cached raster is keyed by, which kind
//! of texture holds it, where in a texture it sits, and the list of
//! textures an atlas keeps.

use vstd::prelude::*;
use crate::geometry::{Bounds, DevicePixels, Size};
use crate::text::{RenderGlyphParams, RenderImageParams};

verus! {

/// The kind of content a texture holds.
#[derive(Clone, Copy, Debug, PartialEq, Eq, Hash, Structural)]
pub enum AtlasTextureKind {
    /// Single-channel coverage: glyphs and icons tinted when painted.
    Monochrome,
    /// Full colour: emoji and images.
    Polychrome,
    /// Per-channel coverage for subpixel-antialiased glyphs.
    Subpixel,
}

/// Identifies a texture of an atlas.
#[derive(Clone, Copy, Debug, PartialEq, Eq, Hash, Structural)]
pub struct AtlasTextureId {
    /// The index of this texture in the atlas.
    pub index: u32,
    /// The kind of content stored in this texture.
    pub kind: AtlasTextureKind,
}

/// The identifier of a tile within its texture: the serialized form of the
/// rectangle allocator's allocation id.
#[derive(Clone, Copy, Debug, PartialEq, Eq, PartialOrd, Ord, Hash, Structural)]
pub struct TileId(pub u32);

/// A rectangle of an atlas texture holding one cached raster.
#[derive(Clone, Copy, Debug, PartialEq, Eq, Structural)]
pub struct AtlasTile {
    /// The texture this tile belongs to.
    pub texture_id: AtlasTextureId,
    /// The unique ID of this tile within its texture.
    pub tile_id: TileId,
    /// Padding around the tile content in pixels.
    pub padding: u32,
    /// The bounds of this tile within the texture.
    pub bounds: Bounds<DevicePixels>,
}

/// Parameters for rendering an SVG at a given size.
#[derive(Clone, Debug, PartialEq, Eq, Hash)]
pub struct RenderSvgParams {
    /// The path of the SVG asset.
    pub path: String,
    /// The size to render it at.
    pub size: Size<DevicePixels>,
}

/// What a cached raster in the atlas is keyed by.
#[derive(Clone, Debug, PartialEq, Eq, Hash)]
pub enum AtlasKey {
    /// A rasterized glyph.
    Glyph(RenderGlyphParams),
    /// A rasterized SVG.
    Svg(RenderSvgParams),
    /// A frame of an image.
    Image(RenderImageParams),
}

/// The kind of texture that holds the raster for a key: emoji and images in
/// colour, subpixel-rendered glyphs per channel, the rest as coverage.
pub open spec fn kind_of_key(key: AtlasKey) -> AtlasTextureKind {
    match key {
        AtlasKey::Glyph(params) => if params.is_emoji {
            AtlasTextureKind::Polychrome
        } else if params.subpixel_rendering {
            AtlasTextureKind::Subpixel
        } else {
            AtlasTextureKind::Monochrome
        },
        AtlasKey::Svg(_) => AtlasTextureKind::Monochrome,
        AtlasKey::Image(_) => AtlasTextureKind::Polychrome,
    }
}

impl AtlasKey {
    /// Returns the texture kind for this atlas key.
    pub fn texture_kind(&self) -> (r: AtlasTextureKind)
        ensures
            r == kind_of_key(*self),
            self matches AtlasKey::Glyph(p) && p.is_emoji ==> r == AtlasTextureKind::Polychrome,
            self matches AtlasKey::Glyph(p) && !p.is_emoji && p.subpixel_rendering ==> r
                == AtlasTextureKind::Subpixel,
            self matches AtlasKey::Glyph(p) && !p.is_emoji && !p.subpixel_rendering ==> r
                == AtlasTextureKind::Monochrome,
            self is Svg ==> r == AtlasTextureKind::Monochrome,
            self is Image ==> r == AtlasTextureKind::Polychrome,
    {
        match self {
            AtlasKey::Glyph(params) => {
                if params.is_emoji {
                    AtlasTextureKind::Polychrome
                } else if params.subpixel_rendering {
                    AtlasTextureKind::Subpixel
                } else {
                    AtlasTextureKind::Monochrome
                }
            },
            AtlasKey::Svg(_) => AtlasTextureKind::Monochrome,
            AtlasKey::Image(_) => AtlasTextureKind::Polychrome,
        }
    }
}

/// An emoji glyph is stored in colour whatever its subpixel flag; a glyph
/// that is no emoji is stored per channel exactly when it is rendered with
/// subpixel antialiasing, and as coverage otherwise.
pub proof fn law_glyph_texture_kind(p: RenderGlyphParams, flag: bool)
    ensures
        p.is_emoji ==> kind_of_key(AtlasKey::Glyph(p)) == AtlasTextureKind::Polychrome,
        p.is_emoji ==> kind_of_key(AtlasKey::Glyph(RenderGlyphParams { subpixel_rendering: flag, ..p }))
            == kind_of_key(AtlasKey::Glyph(p)),
        !p.is_emoji ==> (kind_of_key(AtlasKey::Glyph(p)) == AtlasTextureKind::Subpixel
            <==> p.subpixel_rendering),
        !p.is_emoji ==> (kind_of_key(AtlasKey::Glyph(p)) == AtlasTextureKind::Monochrome
            <==> !p.subpixel_rendering),
{
}

/// Images are stored in colour and SVGs as coverage.
pub proof fn law_image_and_svg_texture_kind(key: AtlasKey)
    ensures
        key is Image ==> kind_of_key(key) == AtlasTextureKind::Polychrome,
        key is Svg ==> kind_of_key(key) == AtlasTextureKind::Monochrome,
{
}

impl From<RenderGlyphParams> for AtlasKey {
    fn from(params: RenderGlyphParams) -> (r: Self) {
        AtlasKey::Glyph(params)
    }
}

impl vstd::std_specs::convert::FromSpecImpl<RenderGlyphParams> for AtlasKey {
    open spec fn obeys_from_spec() -> bool {
        true
    }

    open spec fn from_spec(v: RenderGlyphParams) -> Self {
        AtlasKey::Glyph(v)
    }
}

impl From<RenderSvgParams> for AtlasKey {
    fn from(params: RenderSvgParams) -> (r: Self) {
        AtlasKey::Svg(params)
    }
}

impl vstd::std_specs::convert::FromSpecImpl<RenderSvgParams> for AtlasKey {
    open spec fn obeys_from_spec() -> bool {
        true
    }

    open spec fn from_spec(v: RenderSvgParams) -> Self {
        AtlasKey::Svg(v)
    }
}

impl From<RenderImageParams> for AtlasKey {
    fn from(params: RenderImageParams) -> (r: Self) {
        AtlasKey::Image(params)
    }
}

impl vstd::std_specs::convert::FromSpecImpl<RenderImageParams> for AtlasKey {
    open spec fn obeys_from_spec() -> bool {
        true
    }

    open spec fn from_spec(v: RenderImageParams) -> Self {
        AtlasKey::Image(v)
    }
}

// ---------------------------------------------------------------------------
// Tile ids and the rectangle allocator's allocation ids.
// ---------------------------------------------------------------------------

/// The allocation id of the rectangle allocator, carried opaquely.
#[verifier::external_type_specification]
#[verifier::external_body]
pub struct ExAllocId(etagere::AllocId);

/// The allocation id that `AllocId::deserialize` makes of the given bits.
pub uninterp spec fn allocation_id(bits: u32) -> etagere::AllocId;

/// Trusted: calls `etagere::AllocId::serialize`, which returns the id's
/// inner `u32`. Claims that deserializing the result gives back the same id,
/// and that no other bits deserialize to it.
#[verifier::external_body]
fn serialize_alloc_id(id: &etagere::AllocId) -> (r: u32)
    ensures
        allocation_id(r) == *id,
        forall|b: u32| allocation_id(b) == *id ==> b == r,
{
    id.serialize()
}

/// Trusted: calls `etagere::AllocId::deserialize`, which wraps the bits.
/// Claims only that the result is the id those bits name.
#[verifier::external_body]
fn deserialize_alloc_id(bits: u32) -> (r: etagere::AllocId)
    ensures
        r == allocation_id(bits),
{
    etagere::AllocId::deserialize(bits)
}

impl From<etagere::AllocId> for TileId {
    fn from(id: etagere::AllocId) -> (r: Self) {
        TileId(serialize_alloc_id(&id))
    }
}

impl vstd::std_specs::convert::FromSpecImpl<etagere::AllocId> for TileId {
    open spec fn obeys_from_spec() -> bool {
        true
    }

    open spec fn from_spec(v: etagere::AllocId) -> Self {
        TileId(choose|b: u32| allocation_id(b) == v)
    }
}

impl From<TileId> for etagere::AllocId {
    fn from(id: TileId) -> (r: Self) {
        deserialize_alloc_id(id.0)
    }
}

impl vstd::std_specs::convert::FromSpecImpl<TileId> for etagere::AllocId {
    open spec fn obeys_from_spec() -> bool {
        true
    }

    open spec fn from_spec(v: TileId) -> Self {
        allocation_id(v.0)
    }
}

impl TileId {
    /// The tile id of an allocation.
    pub fn from_alloc_id(id: etagere::AllocId) -> (r: Self)
        ensures
            allocation_id(r.0) == id,
            forall|b: u32| allocation_id(b) == id ==> b == r.0,
    {
        TileId(serialize_alloc_id(&id))
    }

    /// The allocation a tile id names.
    pub fn to_alloc_id(self) -> (r: etagere::AllocId)
        ensures
            r == allocation_id(self.0),
    {
        deserialize_alloc_id(self.0)
    }

}

// ---------------------------------------------------------------------------
// The texture list.
// ---------------------------------------------------------------------------

/// The textures of an atlas, by index, with the indices of freed slots.
pub struct AtlasTextureList<T> {
    /// The textures; a freed slot holds `None`.
    pub textures: Vec<Option<T>>,
    /// The indices of freed slots, for reuse.
    pub free_list: Vec<usize>,
}

/// The indices of the filled slots, in ascending order.
pub open spec fn filled_indices<T>(textures: Seq<Option<T>>) -> Seq<usize>
    decreases textures.len(),
{
    if textures.len() == 0 {
        Seq::empty()
    } else if textures.last() is Some {
        filled_indices(textures.drop_last()).push((textures.len() - 1) as usize)
    } else {
        filled_indices(textures.drop_last())
    }
}

impl<T> Default for AtlasTextureList<T> {
    fn default() -> (r: Self)
        ensures
            r.textures@ == Seq::<Option<T>>::empty(),
            r.free_list@ == Seq::<usize>::empty(),
    {
        Self { textures: Vec::new(), free_list: Vec::new() }
    }
}

impl<T> AtlasTextureList<T> {
    /// The slot at `index`.
    pub fn index(&self, index: usize) -> (r: &Option<T>)
        requires
            index < self.textures.len(),
        ensures
            *r == self.textures@[index as int],
    {
        &self.textures[index]
    }

    /// The slot at `index`, for changing it in place.
    pub fn index_mut(&mut self, index: usize) -> (r: &mut Option<T>)
        requires
            index < old(self).textures.len(),
        ensures
            *r == old(self).textures@[index as int],
            final(self).textures@ == old(self).textures@.update(index as int, *final(r)),
            final(self).free_list@ == old(self).free_list@,
    {
        &mut self.textures[index]
    }

    /// Removes every texture, returning the slots in order, and forgets the
    /// freed slots.
    pub fn drain(&mut self) -> (r: Vec<Option<T>>)
        ensures
            r@ == old(self).textures@,
            final(self).textures@ == Seq::<Option<T>>::empty(),
            final(self).free_list@ == Seq::<usize>::empty(),
    {
        self.free_list.clear();
        let mut out: Vec<Option<T>> = Vec::new();
        std::mem::swap(&mut out, &mut self.textures);
        out
    }

    /// The indices of the slots holding a texture, in ascending order: the
    /// textures that iterating the list mutably visits.
    pub fn occupied_indices(&self) -> (r: Vec<usize>)
        ensures
            r@ == filled_indices(self.textures@),
    {
        let mut out: Vec<usize> = Vec::new();
        let mut i: usize = 0;
        while i < self.textures.len()
            invariant
                i <= self.textures.len(),
                out@ == filled_indices(self.textures@.take(i as int)),
            decreases self.textures.len() - i,
        {
            assert(self.textures@.take(i + 1).drop_last() =~= self.textures@.take(i as int));
            if self.textures[i].is_some() {
                out.push(i);
            }
            i = i + 1;
        }
        assert(self.textures@.take(self.textures.len() as int) =~= self.textures@);
        out
    }
}

} // verus!
