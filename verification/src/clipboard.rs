//! Clipboard strings and the image formats the editor accepts from the
//! clipboard, with their MIME types and file extensions.

use vstd::prelude::*;
use crate::unicode::str_eq;
use std::hash::{Hash, Hasher};

verus! {

/// A clipboard item that should be copied to the clipboard.
#[derive(Debug, PartialEq, Eq)]
pub struct ClipboardString {
    /// The text content.
    pub text: String,
    /// Optional metadata associated with this clipboard string, as JSON.
    pub metadata: Option<String>,
}

/// What seahash gives for a string hashed through `Hash`: the text's bytes,
/// then the `0xff` terminator that `str`'s `Hash` writes, fed to a
/// `SeaHasher` with its default seeds.
pub uninterp spec fn seahash_of_text(text: Seq<char>) -> u64;

/// Hashes `text` with seahash, as `ClipboardString::text_hash` does.
///
/// Trusted: calls `seahash::SeaHasher::new`, `<str as Hash>::hash` and
/// `SeaHasher::finish`. The contract only names the result as a function of
/// the text; seahash's algorithm is not restated.
#[verifier::external_body]
fn seahash_text(text: &str) -> (r: u64)
    ensures
        r == seahash_of_text(text@),
{
    let mut hasher = seahash::SeaHasher::new();
    text.hash(&mut hasher);
    hasher.finish()
}

impl ClipboardString {
    /// Creates a clipboard string with the given text and no metadata.
    pub fn new(text: String) -> (r: Self)
        ensures
            r.text == text,
            r.metadata is None,
    {
        Self { text, metadata: None }
    }

    /// Returns the clipboard string with its metadata replaced by the given
    /// (already serialized) JSON.
    pub fn with_metadata(self, metadata: String) -> (r: Self)
        ensures
            r.text == self.text,
            r.metadata == Some(metadata),
    {
        ClipboardString { text: self.text, metadata: Some(metadata) }
    }

    /// The text of the clipboard string.
    pub fn text(&self) -> (r: &String)
        ensures
            *r == self.text,
    {
        &self.text
    }

    /// The owned text of the clipboard string.
    pub fn into_text(self) -> (r: String)
        ensures
            r == self.text,
    {
        self.text
    }

    /// The metadata of the clipboard string, as JSON, if any.
    pub fn metadata(&self) -> (r: &Option<String>)
        ensures
            *r == self.metadata,
    {
        &self.metadata
    }

    /// A hash of the given text, for clipboard change detection.
    pub fn text_hash(text: &str) -> (r: u64)
        ensures
            r == seahash_of_text(text@),
    {
        seahash_text(text)
    }
}

impl Clone for ClipboardString {
    /// A copy of the text and of the metadata.
    fn clone(&self) -> (r: Self)
        ensures
            r == *self,
    {
        let metadata = match &self.metadata {
            Some(m) => Some(m.clone()),
            None => None,
        };
        ClipboardString { text: self.text.clone(), metadata }
    }
}

impl From<String> for ClipboardString {
    fn from(value: String) -> (r: Self) {
        ClipboardString { text: value, metadata: None }
    }
}

impl vstd::std_specs::convert::FromSpecImpl<String> for ClipboardString {
    open spec fn obeys_from_spec() -> bool {
        true
    }

    open spec fn from_spec(v: String) -> Self {
        ClipboardString { text: v, metadata: None }
    }
}

/// One of the editor's supported image formats (e.g. PNG, JPEG), used when
/// dealing with images in the clipboard.
#[derive(Clone, Copy, Debug, PartialEq, Eq, Hash, Structural)]
pub enum ImageFormat {
    // Sorted from most to least likely to be pasted into an editor, which
    // matters when they are tried one after another against clipboard content.
    /// .png
    Png,
    /// .jpeg or .jpg
    Jpeg,
    /// .webp
    Webp,
    /// .gif
    Gif,
    /// .svg
    Svg,
    /// .bmp
    Bmp,
    /// .tif or .tiff
    Tiff,
    /// .ico
    Ico,
    /// Netpbm image formats (.pbm, .ppm, .pgm).
    Pnm,
}

/// Every image format, in the order the formats are tried.
pub open spec fn all_formats() -> Seq<ImageFormat> {
    seq![ImageFormat::Png, ImageFormat::Jpeg, ImageFormat::Webp, ImageFormat::Gif, ImageFormat::Svg, ImageFormat::Bmp, ImageFormat::Tiff, ImageFormat::Ico, ImageFormat::Pnm]
}

/// The canonical MIME type of a format.
pub open spec fn mime_of(f: ImageFormat) -> Seq<char> {
    match f {
        ImageFormat::Png => seq!['i', 'm', 'a', 'g', 'e', '/', 'p', 'n', 'g'],
        ImageFormat::Jpeg => seq!['i', 'm', 'a', 'g', 'e', '/', 'j', 'p', 'e', 'g'],
        ImageFormat::Webp => seq!['i', 'm', 'a', 'g', 'e', '/', 'w', 'e', 'b', 'p'],
        ImageFormat::Gif => seq!['i', 'm', 'a', 'g', 'e', '/', 'g', 'i', 'f'],
        ImageFormat::Svg => seq!['i', 'm', 'a', 'g', 'e', '/', 's', 'v', 'g', '+', 'x', 'm', 'l'],
        ImageFormat::Bmp => seq!['i', 'm', 'a', 'g', 'e', '/', 'b', 'm', 'p'],
        ImageFormat::Tiff => seq!['i', 'm', 'a', 'g', 'e', '/', 't', 'i', 'f', 'f'],
        ImageFormat::Ico => seq!['i', 'm', 'a', 'g', 'e', '/', 'i', 'c', 'o'],
        ImageFormat::Pnm => seq!['i', 'm', 'a', 'g', 'e', '/', 'x', '-', 'p', 'o', 'r', 't', 'a', 'b', 'l', 'e', '-', 'a', 'n', 'y', 'm', 'a', 'p'],
    }
}

/// The file extension of a format, without the leading dot.
pub open spec fn extension_of(f: ImageFormat) -> Seq<char> {
    match f {
        ImageFormat::Png => seq!['p', 'n', 'g'],
        ImageFormat::Jpeg => seq!['j', 'p', 'g'],
        ImageFormat::Webp => seq!['w', 'e', 'b', 'p'],
        ImageFormat::Gif => seq!['g', 'i', 'f'],
        ImageFormat::Svg => seq!['s', 'v', 'g'],
        ImageFormat::Bmp => seq!['b', 'm', 'p'],
        ImageFormat::Tiff => seq!['t', 'i', 'f', 'f'],
        ImageFormat::Ico => seq!['i', 'c', 'o'],
        ImageFormat::Pnm => seq!['p', 'n', 'm'],
    }
}

/// The format a non-canonical MIME type stands for.
pub open spec fn format_for_alias(m: Seq<char>) -> Option<ImageFormat> {
    if m == seq!['i', 'm', 'a', 'g', 'e', '/', 'j', 'p', 'g'] {
        Some(ImageFormat::Jpeg)
    } else if m == seq!['i', 'm', 'a', 'g', 'e', '/', 't', 'i', 'f'] {
        Some(ImageFormat::Tiff)
    } else {
        None
    }
}

/// The first format, in the order of `all_formats`, whose canonical MIME
/// type is `m`.
pub open spec fn first_format_with_mime(fs: Seq<ImageFormat>, m: Seq<char>) -> Option<ImageFormat>
    decreases fs.len(),
{
    if fs.len() == 0 {
        None
    } else if mime_of(fs[0]) == m {
        Some(fs[0])
    } else {
        first_format_with_mime(fs.drop_first(), m)
    }
}

/// The format a MIME type stands for: the format whose canonical MIME type
/// it is, else the format it is a known alias of.
pub open spec fn format_for_mime(m: Seq<char>) -> Option<ImageFormat> {
    match first_format_with_mime(all_formats(), m) {
        Some(f) => Some(f),
        None => format_for_alias(m),
    }
}

impl ImageFormat {
    /// The MIME type of the format.
    pub fn mime_type(self) -> (r: &'static str)
        ensures
            r@ == mime_of(self),
    {
        match self {
            ImageFormat::Png => {
                proof {
                    reveal_strlit("image/png");
                }
                let r = "image/png";
                assert(r@ =~= mime_of(self));
                r
            },
            ImageFormat::Jpeg => {
                proof {
                    reveal_strlit("image/jpeg");
                }
                let r = "image/jpeg";
                assert(r@ =~= mime_of(self));
                r
            },
            ImageFormat::Webp => {
                proof {
                    reveal_strlit("image/webp");
                }
                let r = "image/webp";
                assert(r@ =~= mime_of(self));
                r
            },
            ImageFormat::Gif => {
                proof {
                    reveal_strlit("image/gif");
                }
                let r = "image/gif";
                assert(r@ =~= mime_of(self));
                r
            },
            ImageFormat::Svg => {
                proof {
                    reveal_strlit("image/svg+xml");
                }
                let r = "image/svg+xml";
                assert(r@ =~= mime_of(self));
                r
            },
            ImageFormat::Bmp => {
                proof {
                    reveal_strlit("image/bmp");
                }
                let r = "image/bmp";
                assert(r@ =~= mime_of(self));
                r
            },
            ImageFormat::Tiff => {
                proof {
                    reveal_strlit("image/tiff");
                }
                let r = "image/tiff";
                assert(r@ =~= mime_of(self));
                r
            },
            ImageFormat::Ico => {
                proof {
                    reveal_strlit("image/ico");
                }
                let r = "image/ico";
                assert(r@ =~= mime_of(self));
                r
            },
            ImageFormat::Pnm => {
                proof {
                    reveal_strlit("image/x-portable-anymap");
                }
                let r = "image/x-portable-anymap";
                assert(r@ =~= mime_of(self));
                r
            },
        }
    }

    /// The file extension of the format, without the leading dot.
    pub fn extension(self) -> (r: &'static str)
        ensures
            r@ == extension_of(self),
    {
        match self {
            ImageFormat::Png => {
                proof {
                    reveal_strlit("png");
                }
                let r = "png";
                assert(r@ =~= extension_of(self));
                r
            },
            ImageFormat::Jpeg => {
                proof {
                    reveal_strlit("jpg");
                }
                let r = "jpg";
                assert(r@ =~= extension_of(self));
                r
            },
            ImageFormat::Webp => {
                proof {
                    reveal_strlit("webp");
                }
                let r = "webp";
                assert(r@ =~= extension_of(self));
                r
            },
            ImageFormat::Gif => {
                proof {
                    reveal_strlit("gif");
                }
                let r = "gif";
                assert(r@ =~= extension_of(self));
                r
            },
            ImageFormat::Svg => {
                proof {
                    reveal_strlit("svg");
                }
                let r = "svg";
                assert(r@ =~= extension_of(self));
                r
            },
            ImageFormat::Bmp => {
                proof {
                    reveal_strlit("bmp");
                }
                let r = "bmp";
                assert(r@ =~= extension_of(self));
                r
            },
            ImageFormat::Tiff => {
                proof {
                    reveal_strlit("tiff");
                }
                let r = "tiff";
                assert(r@ =~= extension_of(self));
                r
            },
            ImageFormat::Ico => {
                proof {
                    reveal_strlit("ico");
                }
                let r = "ico";
                assert(r@ =~= extension_of(self));
                r
            },
            ImageFormat::Pnm => {
                proof {
                    reveal_strlit("pnm");
                }
                let r = "pnm";
                assert(r@ =~= extension_of(self));
                r
            },
        }
    }

    /// Every format, in the order they are tried against clipboard content.
    pub fn all() -> (r: [ImageFormat; 9])
        ensures
            r@ == all_formats(),
    {
        let r = [ImageFormat::Png, ImageFormat::Jpeg, ImageFormat::Webp, ImageFormat::Gif, ImageFormat::Svg, ImageFormat::Bmp, ImageFormat::Tiff, ImageFormat::Ico, ImageFormat::Pnm];
        assert(r@ =~= all_formats());
        r
    }

    /// The format for the given MIME type, including known aliases.
    pub fn from_mime_type(mime_type: &str) -> (r: Option<Self>)
        ensures
            r == format_for_mime(mime_type@),
    {
        let formats = Self::all();
        let mut i: usize = 0;
        assert(all_formats().skip(0) =~= all_formats());
        while i < 9
            invariant
                i <= 9,
                formats@ == all_formats(),
                first_format_with_mime(all_formats(), mime_type@) == first_format_with_mime(
                    all_formats().skip(i as int),
                    mime_type@,
                ),
            decreases 9 - i,
        {
            let f = formats[i];
            assert(all_formats().skip(i as int).drop_first() =~= all_formats().skip(i + 1));
            if str_eq(f.mime_type(), mime_type) {
                return Some(f);
            }
            i = i + 1;
        }
        Self::from_mime_type_alias(mime_type)
    }

    /// The format for a non-canonical MIME type that some producers use
    /// (`image/jpg`, `image/tif`).
    pub fn from_mime_type_alias(mime_type: &str) -> (r: Option<Self>)
        ensures
            r == format_for_alias(mime_type@),
    {
        let jpg = "image/jpg";
        let tif = "image/tif";
        proof {
            reveal_strlit("image/jpg");
            reveal_strlit("image/tif");
        }
        assert(jpg@ =~= seq!['i', 'm', 'a', 'g', 'e', '/', 'j', 'p', 'g']);
        assert(tif@ =~= seq!['i', 'm', 'a', 'g', 'e', '/', 't', 'i', 'f']);
        if str_eq(mime_type, jpg) {
            Some(Self::Jpeg)
        } else if str_eq(mime_type, tif) {
            Some(Self::Tiff)
        } else {
            None
        }
    }
}

/// Every format's canonical MIME type is read back as that format.
pub proof fn law_mime_type_round_trip(f: ImageFormat)
    ensures
        format_for_mime(mime_of(f)) == Some(f),
{
    reveal_with_fuel(first_format_with_mime, 10);
}

/// No two formats share a MIME type or an extension.
pub proof fn law_mime_types_and_extensions_distinct(f: ImageFormat, g: ImageFormat)
    ensures
        mime_of(f) == mime_of(g) ==> f == g,
        extension_of(f) == extension_of(g) ==> f == g,
{
    law_mime_type_round_trip(f);
    law_mime_type_round_trip(g);
    if extension_of(f) == extension_of(g) && f != g {
        assert(extension_of(f).len() == extension_of(g).len());
        assert(extension_of(f)[0] == extension_of(g)[0]);
        assert(extension_of(f)[1] == extension_of(g)[1]);
        assert(extension_of(f)[2] == extension_of(g)[2]);
    }
}

} // verus!
