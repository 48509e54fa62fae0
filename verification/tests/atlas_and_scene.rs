use gpui::atlas::{AtlasKey, AtlasTextureKind, AtlasTextureList, RenderSvgParams, TileId};
use gpui::display::DisplayId;
use gpui::geometry::{point, size, Bounds, DevicePixels, Point, Size};
use gpui::platform::{
    HapticFeedbackStyle, MacActivationPolicy, PopupAnchor, PopupGravity, PopupNotSupportedError,
    TasksIncluded,
};
use gpui::scene::ShaderBool;
use gpui::text::{FontId, GlyphId, ImageId, RenderGlyphParams, RenderImageParams};
use gpui::window::WindowBounds;

fn glyph(is_emoji: bool, subpixel_rendering: bool) -> RenderGlyphParams {
    RenderGlyphParams {
        font_id: FontId(1),
        glyph_id: GlyphId(7),
        font_size_bits: 14.0f32.to_bits(),
        subpixel_variant: Point { x: 1, y: 0 },
        scale_factor_bits: 1.0f32.to_bits(),
        is_emoji,
        subpixel_rendering,
        dilation: 0,
    }
}

#[test]
fn atlas_key_texture_kinds() {
    assert_eq!(AtlasKey::from(glyph(true, true)).texture_kind(), AtlasTextureKind::Polychrome);
    assert_eq!(AtlasKey::from(glyph(false, true)).texture_kind(), AtlasTextureKind::Subpixel);
    assert_eq!(AtlasKey::from(glyph(false, false)).texture_kind(), AtlasTextureKind::Monochrome);
    let svg = RenderSvgParams {
        path: "icons/x.svg".to_string(),
        size: Size { width: DevicePixels(16), height: DevicePixels(16) },
    };
    assert_eq!(AtlasKey::from(svg).texture_kind(), AtlasTextureKind::Monochrome);
    let image = RenderImageParams { image_id: ImageId(3), frame_index: 0 };
    assert_eq!(AtlasKey::from(image).texture_kind(), AtlasTextureKind::Polychrome);
}

#[test]
fn tile_id_alloc_id_round_trip() {
    for bits in [0u32, 1, 0x0001_0002, u32::MAX] {
        let tile = TileId(bits);
        let alloc: etagere::AllocId = tile.into();
        assert_eq!(alloc.serialize(), bits);
        assert_eq!(TileId::from(alloc), tile);
        assert_eq!(TileId::from_alloc_id(tile.to_alloc_id()), tile);
    }
}

#[test]
fn atlas_texture_list_drain_and_occupied() {
    let mut list: AtlasTextureList<u32> = Default::default();
    assert!(list.textures.is_empty());
    list.textures.push(Some(10));
    list.textures.push(None);
    list.textures.push(Some(30));
    list.free_list.push(1);
    assert_eq!(list.occupied_indices(), vec![0, 2]);
    assert_eq!(list.index(1), &None);
    *list.index_mut(1) = Some(20);
    assert_eq!(list.index(1), &Some(20));
    assert_eq!(list.occupied_indices(), vec![0, 1, 2]);
    let drained = list.drain();
    assert_eq!(drained, vec![Some(10), Some(20), Some(30)]);
    assert!(list.textures.is_empty());
    assert!(list.free_list.is_empty());
}

#[test]
fn shader_bool_round_trip() {
    assert!(ShaderBool::from(true).is_enabled());
    assert!(!ShaderBool::from(false).is_enabled());
    assert_eq!(ShaderBool::default(), ShaderBool::Disabled);
    assert!(!ShaderBool::default().is_enabled());
    assert_eq!(ShaderBool::from(ShaderBool::Enabled.is_enabled()), ShaderBool::Enabled);
}

#[test]
fn display_id_round_trip() {
    let id = DisplayId::new(42);
    assert_eq!(u64::from(id), 42);
    assert_eq!(DisplayId::from(7u64), DisplayId::new(7));
    assert_eq!(format!("{:?}", id), "DisplayId(42)");
}

#[test]
fn window_bounds_get_bounds() {
    let b = Bounds { origin: point(1.0f32, 2.0), size: size(300.0f32, 200.0) };
    assert_eq!(WindowBounds::Windowed(b).get_bounds(), b);
    assert_eq!(WindowBounds::Maximized(b).get_bounds(), b);
    assert_eq!(WindowBounds::Fullscreen(b).get_bounds(), b);
}

#[test]
fn platform_descriptor_defaults() {
    assert_eq!(MacActivationPolicy::default(), MacActivationPolicy::Regular);
    assert_eq!(PopupAnchor::default(), PopupAnchor::Center);
    assert_eq!(PopupGravity::default(), PopupGravity::Center);
    assert_ne!(HapticFeedbackStyle::Generic, HapticFeedbackStyle::LevelChange);
    assert_ne!(TasksIncluded::OnlyCompleted, TasksIncluded::CompletedAndRunning);
    assert_eq!(PopupNotSupportedError.to_string(), "popups are not supported on this platform");
}
