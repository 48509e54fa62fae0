//! Decoding clipboard images into frames of BGRA pixels, the channel order
//! the renderers upload.
//!
//! The codecs are the `image` crate's; what is proved here is what is done
//! with their output: the red and blue channels of every pixel are swapped,
//! static images become a single frame, undecodable GIF frames are skipped,
//! and a GIF none of whose frames decodes is an error.

use vstd::prelude::*;
use crate::clipboard::ImageFormat;
use image::{AnimationDecoder, DynamicImage, ImageDecoder, ImageReader};
use image::ImageFormat as Codec;
use std::io::Cursor;
use self::ImageDecodeError::{CreatingDecoder, Decoding, ReadingOrientation};
use self::RasterFormat::{Bmp, Gif, Ico, Jpeg, Png, Pnm, Tiff, WebP};

verus! {

/// The raster formats the codecs read.
#[derive(Clone, Copy, Debug, PartialEq, Eq, Hash, Structural)]
pub enum RasterFormat {
    /// Portable Network Graphics.
    Png,
    /// JPEG.
    Jpeg,
    /// WebP.
    WebP,
    /// Graphics Interchange Format.
    Gif,
    /// Windows bitmap.
    Bmp,
    /// Tagged Image File Format.
    Tiff,
    /// Windows icon.
    Ico,
    /// Netpbm.
    Pnm,
}

/// Why an image could not be decoded, with the codec's message.
#[derive(Clone, Debug, PartialEq, Eq)]
pub enum ImageDecodeError {
    /// No decoder could be made for the bytes.
    CreatingDecoder(String),
    /// The decoder could not read the image's orientation.
    ReadingOrientation(String),
    /// The pixels could not be decoded.
    Decoding(String),
    /// The GIF decoder could not be made for the bytes.
    GifDecoder(String),
    /// Every frame of a GIF failed to decode.
    NoFramesDecoded,
}

/// The message an error reads as: the step that failed, then the codec's
/// message; or the message of an animation none of whose frames decoded.
pub open spec fn decode_error_message(e: ImageDecodeError) -> Seq<char> {
    match e {
        ImageDecodeError::CreatingDecoder(m) => seq!['c', 'r', 'e', 'a', 't', 'i', 'n', 'g', ' ', 'i', 'm', 'a', 'g', 'e', ' ', 'd', 'e', 'c', 'o', 'd', 'e', 'r', ':', ' '] + m@,
        ImageDecodeError::ReadingOrientation(m) => seq!['r', 'e', 'a', 'd', 'i', 'n', 'g', ' ', 'd', 'e', 'c', 'o', 'd', 'e', 'r', '\'', 's', ' ', 'o', 'r', 'i', 'e', 'n', 't', 'a', 't', 'i', 'o', 'n', ':', ' '] + m@,
        ImageDecodeError::Decoding(m) => seq!['d', 'e', 'c', 'o', 'd', 'i', 'n', 'g', ' ', 'i', 'm', 'a', 'g', 'e', ':', ' '] + m@,
        ImageDecodeError::GifDecoder(m) => m@,
        ImageDecodeError::NoFramesDecoded => seq!['G', 'I', 'F', ' ', 'c', 'o', 'u', 'l', 'd', ' ', 'n', 'o', 't', ' ', 'b', 'e', ' ', 'd', 'e', 'c', 'o', 'd', 'e', 'd', ':', ' ', 'a', 'l', 'l', ' ', 'f', 'r', 'a', 'm', 'e', 's', ' ', 'f', 'a', 'i', 'l', 'e', 'd'],
    }
}

impl ImageDecodeError {
    /// The error's message.
    pub fn message(&self) -> (r: String)
        ensures
            r@ == decode_error_message(*self),
    {
        match self {
            ImageDecodeError::CreatingDecoder(m) => {
                let prefix = "creating image decoder: ";
                proof {
                    reveal_strlit("creating image decoder: ");
                }
                assert(prefix@ =~= seq!['c', 'r', 'e', 'a', 't', 'i', 'n', 'g', ' ', 'i', 'm', 'a', 'g', 'e', ' ', 'd', 'e', 'c', 'o', 'd', 'e', 'r', ':', ' ']);
                let mut out = prefix.to_owned();
                out.append(m.as_str());
                out
            },
            ImageDecodeError::ReadingOrientation(m) => {
                let prefix = "reading decoder's orientation: ";
                proof {
                    reveal_strlit("reading decoder's orientation: ");
                }
                assert(prefix@ =~= seq!['r', 'e', 'a', 'd', 'i', 'n', 'g', ' ', 'd', 'e', 'c', 'o', 'd', 'e', 'r', '\'', 's', ' ', 'o', 'r', 'i', 'e', 'n', 't', 'a', 't', 'i', 'o', 'n', ':', ' ']);
                let mut out = prefix.to_owned();
                out.append(m.as_str());
                out
            },
            ImageDecodeError::Decoding(m) => {
                let prefix = "decoding image: ";
                proof {
                    reveal_strlit("decoding image: ");
                }
                assert(prefix@ =~= seq!['d', 'e', 'c', 'o', 'd', 'i', 'n', 'g', ' ', 'i', 'm', 'a', 'g', 'e', ':', ' ']);
                let mut out = prefix.to_owned();
                out.append(m.as_str());
                out
            },
            ImageDecodeError::GifDecoder(m) => m.clone(),
            ImageDecodeError::NoFramesDecoded => {
                let text = "GIF could not be decoded: all frames failed";
                proof {
                    reveal_strlit("GIF could not be decoded: all frames failed");
                }
                assert(text@ =~= seq!['G', 'I', 'F', ' ', 'c', 'o', 'u', 'l', 'd', ' ', 'n', 'o', 't', ' ', 'b', 'e', ' ', 'd', 'e', 'c', 'o', 'd', 'e', 'd', ':', ' ', 'a', 'l', 'l', ' ', 'f', 'r', 'a', 'm', 'e', 's', ' ', 'f', 'a', 'i', 'l', 'e', 'd']);
                text.to_owned()
            },
        }
    }
}

/// A decoded frame with 8-bit RGBA (or, once converted, BGRA) pixels.
#[derive(Clone, Debug, PartialEq, Eq)]
pub struct Frame {
    /// Width in pixels.
    pub width: u32,
    /// Height in pixels.
    pub height: u32,
    /// Horizontal offset of the frame within the animation.
    pub left: u32,
    /// Vertical offset of the frame within the animation.
    pub top: u32,
    /// How long the frame shows, as a ratio of milliseconds: numerator.
    pub delay_numer_ms: u32,
    /// How long the frame shows, as a ratio of milliseconds: denominator.
    pub delay_denom_ms: u32,
    /// The pixels, four bytes each, row by row.
    pub pixels: Vec<u8>,
}

/// A frame as plain values.
pub type FrameView = (u32, u32, u32, u32, u32, u32, Seq<u8>);

impl View for Frame {
    type V = FrameView;

    open spec fn view(&self) -> FrameView {
        (
            self.width,
            self.height,
            self.left,
            self.top,
            self.delay_numer_ms,
            self.delay_denom_ms,
            self.pixels@,
        )
    }
}

/// What the codecs make of a static image: the width, height and RGBA
/// pixels of the image, already turned the way its orientation metadata
/// says, or the step that failed.
pub uninterp spec fn decoded_static(bytes: Seq<u8>, format: RasterFormat) -> Result<
    (u32, u32, Seq<u8>),
    ImageDecodeError,
>;

/// What the GIF codec makes of an animation: whether a decoder could be
/// made, and then the first `limit` results of its frame iterator (fewer
/// when the iterator ends), each a decoded frame or the codec's message.
pub uninterp spec fn decoded_gif(bytes: Seq<u8>, limit: usize) -> Result<
    Seq<Result<FrameView, String>>,
    String,
>;

/// How many results of the GIF codec's frame iterator are read: one more
/// than the number of bytes. Every result the codec yields while it makes
/// progress consumes input, so an animation the codec can finish yields no
/// more results than this; an iterator that goes past it is repeating an
/// error without reading (as it does at an unexpected end of input), and
/// reading stops there.
pub open spec fn gif_read_limit(len: nat) -> usize {
    if len < usize::MAX {
        (len + 1) as usize
    } else {
        usize::MAX
    }
}

/// Trusted: calls `image::ImageReader::with_format(..).into_decoder()`,
/// `ImageDecoder::orientation`, `DynamicImage::from_decoder`,
/// `DynamicImage::apply_orientation` and `DynamicImage::into_rgba8`. Claims
/// only that the result is a function of the bytes and the format.
#[verifier::external_body]
fn decode_rgba(bytes: &[u8], format: RasterFormat) -> (r: Result<(u32, u32, Vec<u8>), ImageDecodeError>)
    ensures
        decoded_static(bytes@, format) == match r {
            Ok(t) => Ok::<(u32, u32, Seq<u8>), ImageDecodeError>((t.0, t.1, t.2@)),
            Err(e) => Err(e),
        },
{
    let format = match format {
        Png => Codec::Png, Jpeg => Codec::Jpeg, WebP => Codec::WebP, Gif => Codec::Gif,
        Bmp => Codec::Bmp, Tiff => Codec::Tiff, Ico => Codec::Ico, Pnm => Codec::Pnm,
    };
    let mut decoder = ImageReader::with_format(Cursor::new(bytes), format).into_decoder().map_err(|e| CreatingDecoder(e.to_string()))?;
    let orientation = decoder.orientation().map_err(|e| ReadingOrientation(e.to_string()))?;
    let mut image = DynamicImage::from_decoder(decoder).map_err(|e| Decoding(e.to_string()))?;
    image.apply_orientation(orientation);
    let data = image.into_rgba8();
    Ok((data.width(), data.height(), data.into_raw()))
}

/// Trusted: calls `image::codecs::gif::GifDecoder::new` and
/// `AnimationDecoder::into_frames`, reading at most `limit` results of the
/// frame iterator (`Iterator::take`) and turning each into plain values.
/// Claims that the result is a function of the bytes and the limit, and
/// holds no more than `limit` results.
#[verifier::external_body]
fn decode_gif_frames(bytes: &[u8], limit: usize) -> (r: Result<Vec<Result<Frame, String>>, String>)
    ensures
        r matches Ok(frames) ==> frames@.len() <= limit,
        decoded_gif(bytes@, limit) == match r {
            Ok(frames) => Ok::<Seq<Result<FrameView, String>>, String>(
                frame_results_view(frames@),
            ),
            Err(e) => Err(e),
        },
{
    let decoder = image::codecs::gif::GifDecoder::new(Cursor::new(bytes)).map_err(|e| e.to_string())?;
    Ok(decoder.into_frames().take(limit).map(|frame| frame.map_err(|e| e.to_string()).map(|f| {
        let (delay_numer_ms, delay_denom_ms) = f.delay().numer_denom_ms();
        let (left, top) = (f.left(), f.top());
        let buffer = f.into_buffer();
        Frame { width: buffer.width(), height: buffer.height(), left, top, delay_numer_ms, delay_denom_ms, pixels: buffer.into_raw() }
    })).collect())
}

/// The frame results as plain values.
pub open spec fn frame_results_view(rs: Seq<Result<Frame, String>>) -> Seq<
    Result<FrameView, String>,
> {
    Seq::new(rs.len(), |i: int| frame_result_view(rs[i]))
}

/// A frame result as plain values.
pub open spec fn frame_result_view(r: Result<Frame, String>) -> Result<FrameView, String> {
    match r {
        Ok(f) => Ok(f@),
        Err(e) => Err(e),
    }
}

/// Pixels with the first and third byte of every whole four-byte pixel
/// swapped (RGBA to BGRA, or back); a trailing partial pixel is kept.
pub open spec fn swizzled(p: Seq<u8>) -> Seq<u8> {
    Seq::new(
        p.len(),
        |i: int|
            if i < (p.len() / 4) * 4 && i % 4 == 0 {
                p[i + 2]
            } else if i < (p.len() / 4) * 4 && i % 4 == 2 {
                p[i - 2]
            } else {
                p[i]
            },
    )
}

/// A frame with its channels swapped.
pub open spec fn swizzled_frame(f: FrameView) -> FrameView {
    (f.0, f.1, f.2, f.3, f.4, f.5, swizzled(f.6))
}

/// Swaps the red and blue channels of every whole pixel.
pub fn swap_red_blue(pixels: &mut Vec<u8>)
    ensures
        final(pixels)@ == swizzled(old(pixels)@),
{
    let ghost orig = pixels@;
    let n = pixels.len();
    let whole = n / 4 * 4;
    let mut i: usize = 0;
    while i < whole
        invariant
            n == orig.len(),
            pixels@.len() == n,
            whole == n / 4 * 4,
            i % 4 == 0,
            i <= whole,
            forall|k: int| 0 <= k < i ==> pixels@[k] == swizzled(orig)[k],
            forall|k: int| i <= k < n ==> pixels@[k] == orig[k],
        decreases whole - i,
    {
        let first = pixels[i];
        let third = pixels[i + 2];
        pixels.set(i, third);
        pixels.set(i + 2, first);
        assert((i + 1) % 4 == 1 && (i + 2) % 4 == 2 && (i + 3) % 4 == 3);
        assert(i + 4 <= whole);
        i = i + 4;
    }
    assert(pixels@ =~= swizzled(orig));
}

/// Swapping the channels twice gives back the pixels.
pub proof fn law_swizzle_involution(p: Seq<u8>)
    ensures
        swizzled(swizzled(p)) == p,
{
    let q = swizzled(p);
    assert forall|i: int| 0 <= i < p.len() implies swizzled(q)[i] == p[i] by {
        let w = (p.len() / 4) * 4;
        if i < w && i % 4 == 0 {
            assert((i + 2) % 4 == 2 && i + 2 < w);
        } else if i < w && i % 4 == 2 {
            assert((i - 2) % 4 == 0 && i - 2 >= 0);
        }
    }
    assert(swizzled(q) =~= p);
}

/// What decoding a static image gives: the codecs' frame with its channels
/// swapped, as the only frame, or the codecs' error.
pub open spec fn static_outcome(
    bytes: Seq<u8>,
    format: RasterFormat,
    r: Result<Vec<Frame>, ImageDecodeError>,
) -> bool {
    match decoded_static(bytes, format) {
        Ok(d) => r matches Ok(frames) && frames@.len() == 1 && frames@[0]@ == swizzled_frame(
            (d.0, d.1, 0, 0, 0, 1, d.2),
        ),
        Err(e) => r == Err::<Vec<Frame>, ImageDecodeError>(e),
    }
}

/// What decoding an animation gives: the frames that decoded, in order,
/// with their channels swapped, among the results read up to the limit; an
/// error when the decoder cannot be made or no frame decodes.
pub open spec fn gif_outcome(bytes: Seq<u8>, r: Result<Vec<Frame>, ImageDecodeError>) -> bool {
    match decoded_gif(bytes, gif_read_limit(bytes.len())) {
        Err(e) => r == Err::<Vec<Frame>, ImageDecodeError>(ImageDecodeError::GifDecoder(e)),
        Ok(rs) => if kept_frames(rs).len() == 0 {
            r == Err::<Vec<Frame>, ImageDecodeError>(ImageDecodeError::NoFramesDecoded)
        } else {
            r matches Ok(frames) && frames_view(frames@) == kept_frames(rs)
        },
    }
}

/// Decodes a static image into its single BGRA frame.
pub fn decode_static_image(bytes: &[u8], format: RasterFormat) -> (r: Result<
    Vec<Frame>,
    ImageDecodeError,
>)
    ensures
        static_outcome(bytes@, format, r),
{
    match decode_rgba(bytes, format) {
        Ok((width, height, pixels)) => {
            let mut frame = Frame {
                width,
                height,
                left: 0,
                top: 0,
                delay_numer_ms: 0,
                delay_denom_ms: 1,
                pixels,
            };
            swap_red_blue(&mut frame.pixels);
            let mut frames: Vec<Frame> = Vec::new();
            frames.push(frame);
            Ok(frames)
        },
        Err(e) => Err(e),
    }
}

/// The frames of an animation that decoded, in order, each swizzled.
pub open spec fn kept_frames(rs: Seq<Result<FrameView, String>>) -> Seq<FrameView>
    decreases rs.len(),
{
    if rs.len() == 0 {
        Seq::empty()
    } else {
        match rs.last() {
            Ok(f) => kept_frames(rs.drop_last()).push(swizzled_frame(f)),
            Err(_) => kept_frames(rs.drop_last()),
        }
    }
}

/// Whether a codec result is a decoded frame.
pub open spec fn is_decoded(r: Result<FrameView, String>) -> bool {
    r is Ok
}

/// The results of the codec that are decoded frames, in order.
pub open spec fn ok_results(rs: Seq<Result<FrameView, String>>) -> Seq<Result<FrameView, String>> {
    rs.filter(|r: Result<FrameView, String>| is_decoded(r))
}

/// The frames kept of an animation are exactly the codec's decoded frames,
/// one for each `Ok` result and in the codec's order, each with its
/// channels swapped; failed results leave no frame.
pub proof fn law_kept_frames_are_the_decoded_ones(rs: Seq<Result<FrameView, String>>)
    ensures
        kept_frames(rs).len() == ok_results(rs).len(),
        forall|k: int|
            0 <= k < kept_frames(rs).len() ==> #[trigger] kept_frames(rs)[k] == swizzled_frame(
                ok_results(rs)[k]->Ok_0,
            ),
        forall|k: int| 0 <= k < ok_results(rs).len() ==> (#[trigger] ok_results(rs)[k]) is Ok,
    decreases rs.len(),
{
    if rs.len() > 0 {
        law_kept_frames_are_the_decoded_ones(rs.drop_last());
        reveal(Seq::filter);
        assert(ok_results(rs) == if is_decoded(rs.last()) {
            ok_results(rs.drop_last()).push(rs.last())
        } else {
            ok_results(rs.drop_last())
        });
    }
}

/// The views of a list of frames.
pub open spec fn frames_view(fs: Seq<Frame>) -> Seq<FrameView> {
    Seq::new(fs.len(), |i: int| fs[i]@)
}

/// Decodes an animated GIF into its BGRA frames, skipping frames that fail
/// to decode; fails when the decoder cannot be made or no frame decodes.
/// At most one more result than there are bytes is read from the codec, so
/// decoding ends on every input.
pub fn decode_gif(bytes: &[u8]) -> (r: Result<Vec<Frame>, ImageDecodeError>)
    ensures
        gif_outcome(bytes@, r),
        decoded_gif(bytes@, gif_read_limit(bytes@.len())) matches Ok(rs) ==> {
            &&& ok_results(rs).len() == 0 ==> r == Err::<Vec<Frame>, ImageDecodeError>(
                ImageDecodeError::NoFramesDecoded,
            )
            &&& ok_results(rs).len() > 0 ==> (r matches Ok(frames) && frames@.len()
                == ok_results(rs).len() && forall|k: int|
                0 <= k < frames@.len() ==> (#[trigger] frames@[k])@ == swizzled_frame(
                    ok_results(rs)[k]->Ok_0,
                ))
        },
        decoded_gif(bytes@, gif_read_limit(bytes@.len())) matches Err(e) ==> r == Err::<
            Vec<Frame>,
            ImageDecodeError,
        >(ImageDecodeError::GifDecoder(e)),
{
    let limit = if bytes.len() < usize::MAX {
        bytes.len() + 1
    } else {
        usize::MAX
    };
    let results = match decode_gif_frames(bytes, limit) {
        Ok(results) => results,
        Err(e) => {
            return Err(ImageDecodeError::GifDecoder(e));
        },
    };
    let ghost rs = frame_results_view(results@);
    let mut frames: Vec<Frame> = Vec::new();
    let mut results = results;
    let ghost all = results@;
    let mut i: usize = 0;
    assert(frames_view(frames@) =~= kept_frames(rs.take(0)));
    while i < results.len()
        invariant
            i <= results.len(),
            results@ == all,
            rs == frame_results_view(all),
            frames_view(frames@) == kept_frames(rs.take(i as int)),
        decreases results.len() - i,
    {
        assert(rs.take(i + 1).drop_last() =~= rs.take(i as int));
        assert(rs.take(i + 1).last() == frame_result_view(all[i as int]));
        match &results[i] {
            Ok(frame) => {
                let mut frame = frame.clone_frame();
                swap_red_blue(&mut frame.pixels);
                frames.push(frame);
                assert(frames_view(frames@) =~= kept_frames(rs.take(i as int)).push(
                    swizzled_frame(all[i as int]->Ok_0@),
                ));
            },
            Err(_) => {},
        }
        i = i + 1;
    }
    assert(rs.take(results.len() as int) =~= rs);
    proof {
        law_kept_frames_are_the_decoded_ones(rs);
        assert forall|k: int| 0 <= k < frames@.len() implies (#[trigger] frames@[k])@
            == swizzled_frame(ok_results(rs)[k]->Ok_0) by {
            assert(frames_view(frames@)[k] == frames@[k]@);
        }
    }
    if frames.len() == 0 {
        Err(ImageDecodeError::NoFramesDecoded)
    } else {
        Ok(frames)
    }
}

impl Frame {
    /// A copy of the frame.
    pub fn clone_frame(&self) -> (r: Frame)
        ensures
            r@ == self@,
    {
        Frame {
            width: self.width,
            height: self.height,
            left: self.left,
            top: self.top,
            delay_numer_ms: self.delay_numer_ms,
            delay_denom_ms: self.delay_denom_ms,
            pixels: self.pixels.clone(),
        }
    }
}

/// The raster format an image format is decoded as; SVG is not raster.
pub open spec fn raster_format_of(f: ImageFormat) -> Option<RasterFormat> {
    match f {
        ImageFormat::Png => Some(RasterFormat::Png),
        ImageFormat::Jpeg => Some(RasterFormat::Jpeg),
        ImageFormat::Webp => Some(RasterFormat::WebP),
        ImageFormat::Gif => Some(RasterFormat::Gif),
        ImageFormat::Svg => None,
        ImageFormat::Bmp => Some(RasterFormat::Bmp),
        ImageFormat::Tiff => Some(RasterFormat::Tiff),
        ImageFormat::Ico => Some(RasterFormat::Ico),
        ImageFormat::Pnm => Some(RasterFormat::Pnm),
    }
}

/// Decodes the bytes of an image in the given format into the frames a
/// render image is made of: every frame of a GIF, the one frame of any other
/// raster image. SVG is not decoded here: it is rendered by an SVG
/// renderer, and the answer is `None`.
pub fn decode_image_frames(format: ImageFormat, bytes: &[u8]) -> (r: Option<
    Result<Vec<Frame>, ImageDecodeError>,
>)
    ensures
        r is None <==> format == ImageFormat::Svg,
        format == ImageFormat::Gif ==> (r matches Some(res) && gif_outcome(bytes@, res)),
        raster_format_of(format) matches Some(rf) ==> (rf != RasterFormat::Gif ==> (r matches Some(
            res,
        ) && static_outcome(bytes@, rf, res))),
        format == ImageFormat::Png ==> (r matches Some(res) && static_outcome(
            bytes@,
            RasterFormat::Png,
            res,
        )),
        format == ImageFormat::Jpeg ==> (r matches Some(res) && static_outcome(
            bytes@,
            RasterFormat::Jpeg,
            res,
        )),
        format == ImageFormat::Webp ==> (r matches Some(res) && static_outcome(
            bytes@,
            RasterFormat::WebP,
            res,
        )),
        format == ImageFormat::Bmp ==> (r matches Some(res) && static_outcome(
            bytes@,
            RasterFormat::Bmp,
            res,
        )),
        format == ImageFormat::Tiff ==> (r matches Some(res) && static_outcome(
            bytes@,
            RasterFormat::Tiff,
            res,
        )),
        format == ImageFormat::Ico ==> (r matches Some(res) && static_outcome(
            bytes@,
            RasterFormat::Ico,
            res,
        )),
        format == ImageFormat::Pnm ==> (r matches Some(res) && static_outcome(
            bytes@,
            RasterFormat::Pnm,
            res,
        )),
{
    match format {
        ImageFormat::Gif => Some(decode_gif(bytes)),
        ImageFormat::Svg => None,
        ImageFormat::Png => Some(decode_static_image(bytes, RasterFormat::Png)),
        ImageFormat::Jpeg => Some(decode_static_image(bytes, RasterFormat::Jpeg)),
        ImageFormat::Webp => Some(decode_static_image(bytes, RasterFormat::WebP)),
        ImageFormat::Bmp => Some(decode_static_image(bytes, RasterFormat::Bmp)),
        ImageFormat::Tiff => Some(decode_static_image(bytes, RasterFormat::Tiff)),
        ImageFormat::Ico => Some(decode_static_image(bytes, RasterFormat::Ico)),
        ImageFormat::Pnm => Some(decode_static_image(bytes, RasterFormat::Pnm)),
    }
}

} // verus!
