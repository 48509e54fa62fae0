use gpui::dispatch::capture_pending_traces;
use gpui::platform::guess_compositor;
use gpui::geometry::{DevicePixels, Size};
use gpui::surface::SurfaceSource;
use gpui::clipboard::ImageFormat;
use gpui::dispatch::{inflight_after_decrement, inflight_after_increment, num_cpus_override};
use gpui::gamma::gamma_table_row;
use gpui::image_decode::{
    decode_gif, decode_image_frames, decode_static_image, swap_red_blue, ImageDecodeError,
    RasterFormat,
};
use gpui::unicode::{chars_of, is_whitespace, len_utf16, len_utf8, str_eq};
use std::io::Cursor;

fn png_bytes(width: u32, height: u32, rgba: Vec<u8>) -> Vec<u8> {
    let image = image::RgbaImage::from_raw(width, height, rgba).unwrap();
    let mut out = Vec::new();
    image.write_to(&mut Cursor::new(&mut out), image::ImageFormat::Png).unwrap();
    out
}

#[test]
fn decode_png_swaps_red_and_blue() {
    let bytes = png_bytes(2, 1, vec![1, 2, 3, 4, 5, 6, 7, 8]);
    let frames = decode_static_image(&bytes, RasterFormat::Png).unwrap();
    assert_eq!(frames.len(), 1);
    assert_eq!((frames[0].width, frames[0].height), (2, 1));
    assert_eq!(frames[0].pixels, vec![3, 2, 1, 4, 7, 6, 5, 8]);
    assert_eq!((frames[0].left, frames[0].top), (0, 0));
    assert_eq!((frames[0].delay_numer_ms, frames[0].delay_denom_ms), (0, 1));
}

#[test]
fn decode_garbage_fails() {
    let result = decode_static_image(&[1, 2, 3], RasterFormat::Png);
    assert!(matches!(result, Err(ImageDecodeError::CreatingDecoder(_)) | Err(ImageDecodeError::Decoding(_))));
    assert!(matches!(decode_gif(&[1, 2, 3]), Err(ImageDecodeError::GifDecoder(_))));
}

#[test]
fn decode_gif_frames() {
    let mut bytes = Vec::new();
    {
        let mut encoder = image::codecs::gif::GifEncoder::new(&mut bytes);
        let frame = image::Frame::new(image::RgbaImage::from_raw(1, 1, vec![255, 0, 0, 255]).unwrap());
        encoder.encode_frame(frame).unwrap();
    }
    let frames = decode_gif(&bytes).unwrap();
    assert_eq!(frames.len(), 1);
    assert_eq!(frames[0].pixels, vec![0, 0, 255, 255]);
}

#[test]
fn decode_image_frames_dispatches_by_format() {
    assert!(decode_image_frames(ImageFormat::Svg, b"<svg/>").is_none());
    let bytes = png_bytes(1, 1, vec![9, 8, 7, 6]);
    let frames = decode_image_frames(ImageFormat::Png, &bytes).unwrap().unwrap();
    assert_eq!(frames[0].pixels, vec![7, 8, 9, 6]);
    assert!(decode_image_frames(ImageFormat::Jpeg, &[0, 1]).unwrap().is_err());
}

#[test]
fn swap_red_blue_twice_is_identity() {
    let before = vec![1u8, 2, 3, 4, 5, 6, 7, 8, 9, 10];
    let mut pixels = before.clone();
    swap_red_blue(&mut pixels);
    assert_eq!(pixels, vec![3, 2, 1, 4, 7, 6, 5, 8, 9, 10]);
    swap_red_blue(&mut pixels);
    assert_eq!(pixels, before);
}

#[test]
fn inflight_counting() {
    assert_eq!(inflight_after_increment(0), 1);
    assert_eq!(inflight_after_decrement(1), (0, true));
    assert_eq!(inflight_after_decrement(3), (2, false));
}

#[test]
fn cpu_count_override() {
    assert_eq!(num_cpus_override(0), None);
    assert_eq!(num_cpus_override(8), Some(8));
}

#[test]
fn gamma_rows() {
    assert_eq!(gamma_table_row(0), 0);
    assert_eq!(gamma_table_row(10), 0);
    assert_eq!(gamma_table_row(18), 8);
    assert_eq!(gamma_table_row(22), 12);
    assert_eq!(gamma_table_row(usize::MAX), 12);
}

#[test]
fn unicode_helpers() {
    assert!(is_whitespace(' ') && is_whitespace('\u{3000}') && is_whitespace('\u{85}'));
    assert!(!is_whitespace('a') && !is_whitespace('\u{200b}'));
    for c in ['a', 'é', '€', '😀', '\u{7f}', '\u{80}', '\u{7ff}', '\u{800}', '\u{ffff}', '\u{10000}'] {
        assert_eq!(len_utf8(c), c.len_utf8());
        assert_eq!(len_utf16(c), c.len_utf16());
        assert_eq!(is_whitespace(c), c.is_whitespace());
    }
    for u in 0u32..0x3100 {
        if let Some(c) = char::from_u32(u) {
            assert_eq!(is_whitespace(c), c.is_whitespace());
        }
    }
    assert_eq!(chars_of("hé😀"), vec!['h', 'é', '😀']);
    assert!(str_eq("abc", "abc"));
    assert!(!str_eq("abc", "abd"));
    assert!(!str_eq("abc", "ab"));
}

#[test]
fn pending_traces_variable() {
    assert!(capture_pending_traces(Some("1")));
    assert!(capture_pending_traces(Some("true")));
    assert!(!capture_pending_traces(Some("TRUE")));
    assert!(!capture_pending_traces(Some("0")));
    assert!(!capture_pending_traces(Some("")));
    assert!(!capture_pending_traces(None));
}

#[test]
fn compositor_guesses() {
    assert_eq!(guess_compositor(true, true, true), "Headless");
    assert_eq!(guess_compositor(false, true, true), "Wayland");
    assert_eq!(guess_compositor(false, false, true), "X11");
    assert_eq!(guess_compositor(false, false, false), "Headless");
}

#[test]
fn surface_source_size() {
    let s = Size { width: DevicePixels(640), height: DevicePixels(480) };
    assert_eq!(SurfaceSource::Texture { texture: "handle", size: s }.size(), s);
    assert_eq!(SurfaceSource::<()>::Unsupported(s).size(), s);
}

fn one_frame_gif() -> Vec<u8> {
    let mut bytes = Vec::new();
    {
        let mut encoder = image::codecs::gif::GifEncoder::new(&mut bytes);
        let frame = image::Frame::new(image::RgbaImage::from_raw(1, 1, vec![255, 0, 0, 255]).unwrap());
        encoder.encode_frame(frame).unwrap();
    }
    bytes
}

#[test]
fn decode_gif_without_trailer_ends() {
    let bytes = one_frame_gif();
    let frames = decode_gif(&bytes[..bytes.len() - 1]).unwrap();
    assert_eq!(frames.len(), 1);
    assert_eq!(frames[0].pixels, vec![0, 0, 255, 255]);
}

#[test]
fn decode_gif_all_frames_failed() {
    let mut bytes = one_frame_gif();
    // The LZW minimum code size of the only frame is made invalid.
    bytes[43] = 0;
    let result = decode_gif(&bytes);
    assert_eq!(result, Err(ImageDecodeError::NoFramesDecoded));
    assert_eq!(result.unwrap_err().message(), "GIF could not be decoded: all frames failed");
    bytes.pop();
    assert_eq!(decode_gif(&bytes), Err(ImageDecodeError::NoFramesDecoded));
}

#[test]
fn decode_gif_cut_in_header() {
    let bytes = one_frame_gif();
    assert!(matches!(decode_gif(&bytes[..13]), Err(ImageDecodeError::GifDecoder(_))));
}

#[test]
fn image_decode_error_messages() {
    assert_eq!(ImageDecodeError::CreatingDecoder("bad".to_string()).message(), "creating image decoder: bad");
    assert_eq!(ImageDecodeError::ReadingOrientation("x".to_string()).message(), "reading decoder's orientation: x");
    assert_eq!(ImageDecodeError::Decoding("y".to_string()).message(), "decoding image: y");
    assert_eq!(ImageDecodeError::GifDecoder("z".to_string()).message(), "z");
}
