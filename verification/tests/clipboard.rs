use gpui::clipboard::{ClipboardString, ImageFormat};
use std::hash::{Hash, Hasher};

const ALL: [ImageFormat; 9] = [
    ImageFormat::Png,
    ImageFormat::Jpeg,
    ImageFormat::Webp,
    ImageFormat::Gif,
    ImageFormat::Svg,
    ImageFormat::Bmp,
    ImageFormat::Tiff,
    ImageFormat::Ico,
    ImageFormat::Pnm,
];

#[test]
fn clipboard_string_new_has_no_metadata() {
    let item = ClipboardString::new("hello".to_string());
    assert_eq!(item.text(), "hello");
    assert_eq!(item.metadata, None);
    assert_eq!(item.into_text(), "hello".to_string());
}

#[test]
fn clipboard_string_from_string() {
    let item: ClipboardString = "abc".to_string().into();
    assert_eq!(item, ClipboardString::new("abc".to_string()));
}

#[test]
fn clipboard_string_with_metadata_keeps_text() {
    let item = ClipboardString::new("x".to_string()).with_metadata("{\"a\":1}".to_string());
    assert_eq!(item.text, "x");
    assert_eq!(item.metadata(), &Some("{\"a\":1}".to_string()));
}

#[test]
fn clipboard_string_clone_keeps_text_and_metadata() {
    let item = ClipboardString::new("copy me".to_string()).with_metadata("[1]".to_string());
    let copy = item.clone();
    assert_eq!(copy, item);
    assert_eq!(copy.into_text(), item.text().clone());
}

#[test]
fn clipboard_text_hash_is_seahash_of_the_text() {
    let mut hasher = seahash::SeaHasher::new();
    "some text".hash(&mut hasher);
    let expected = hasher.finish();
    assert_eq!(ClipboardString::text_hash("some text"), expected);
    assert_ne!(ClipboardString::text_hash("some text"), ClipboardString::text_hash("other text"));
    assert_eq!(ClipboardString::text_hash(""), ClipboardString::text_hash(""));
}

#[test]
fn image_format_mime_types() {
    assert_eq!(ImageFormat::Png.mime_type(), "image/png");
    assert_eq!(ImageFormat::Jpeg.mime_type(), "image/jpeg");
    assert_eq!(ImageFormat::Webp.mime_type(), "image/webp");
    assert_eq!(ImageFormat::Gif.mime_type(), "image/gif");
    assert_eq!(ImageFormat::Svg.mime_type(), "image/svg+xml");
    assert_eq!(ImageFormat::Bmp.mime_type(), "image/bmp");
    assert_eq!(ImageFormat::Tiff.mime_type(), "image/tiff");
    assert_eq!(ImageFormat::Ico.mime_type(), "image/ico");
    assert_eq!(ImageFormat::Pnm.mime_type(), "image/x-portable-anymap");
}

#[test]
fn image_format_extensions() {
    assert_eq!(ImageFormat::Png.extension(), "png");
    assert_eq!(ImageFormat::Jpeg.extension(), "jpg");
    assert_eq!(ImageFormat::Webp.extension(), "webp");
    assert_eq!(ImageFormat::Gif.extension(), "gif");
    assert_eq!(ImageFormat::Svg.extension(), "svg");
    assert_eq!(ImageFormat::Bmp.extension(), "bmp");
    assert_eq!(ImageFormat::Tiff.extension(), "tiff");
    assert_eq!(ImageFormat::Ico.extension(), "ico");
    assert_eq!(ImageFormat::Pnm.extension(), "pnm");
}

#[test]
fn image_format_mime_type_round_trip() {
    for format in ALL {
        assert_eq!(ImageFormat::from_mime_type(format.mime_type()), Some(format));
    }
    assert_eq!(ImageFormat::all(), ALL);
}

#[test]
fn image_format_aliases() {
    assert_eq!(ImageFormat::from_mime_type("image/jpg"), Some(ImageFormat::Jpeg));
    assert_eq!(ImageFormat::from_mime_type("image/tif"), Some(ImageFormat::Tiff));
    assert_eq!(ImageFormat::from_mime_type_alias("image/jpg"), Some(ImageFormat::Jpeg));
    assert_eq!(ImageFormat::from_mime_type_alias("image/png"), None);
}

#[test]
fn image_format_unknown_mime_types() {
    assert_eq!(ImageFormat::from_mime_type("image/avif"), None);
    assert_eq!(ImageFormat::from_mime_type(""), None);
    assert_eq!(ImageFormat::from_mime_type("IMAGE/PNG"), None);
    assert_eq!(ImageFormat::from_mime_type("image/png "), None);
}
