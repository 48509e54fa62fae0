//! The line-wrap vocabulary: the fragments a line is made of, the positions
//! at which it may be wrapped, and the boundaries chosen between lines.
//!
//! A fragment's width is carried as the caller's width type `W` (logical
//! pixels, which are floats, in the toolkit); nothing here computes with it.

use vstd::prelude::*;
use vstd::string::StringSliceAdditionalSpecFns;
use crate::unicode::{chars_of, len_utf8, utf8_len, utf8_width, lemma_utf8_len_is_encoding_length};

verus! {

/// A fragment of a line that can be wrapped.
pub enum LineFragment<'a, W> {
    /// A text fragment consisting of characters.
    Text {
        /// The text content of the fragment.
        text: &'a str,
    },
    /// A non-text element with a fixed width.
    Element {
        /// The width of the element.
        width: W,
        /// The UTF-8 encoded length of the element.
        len_utf8: usize,
    },
}

/// A candidate position at which a line may be wrapped.
#[derive(Clone, Copy, Debug, PartialEq)]
pub enum WrapBoundaryCandidate<W> {
    /// A boundary after a character.
    Char {
        /// The character the boundary follows.
        character: char,
    },
    /// A boundary after a non-text element.
    Element {
        /// The width of the element.
        width: W,
        /// The UTF-8 encoded length of the element.
        len_utf8: usize,
    },
}

/// The candidate after a character.
pub open spec fn char_candidate<W>(c: char) -> WrapBoundaryCandidate<W> {
    WrapBoundaryCandidate::Char { character: c }
}

/// One character candidate per character, in order.
pub open spec fn char_candidates<W>(s: Seq<char>) -> Seq<WrapBoundaryCandidate<W>> {
    Seq::new(s.len(), |i: int| char_candidate(s[i]))
}

/// The candidates of a fragment: one per character of a text fragment, or
/// the element itself.
pub open spec fn candidates_of<'a, W>(f: LineFragment<'a, W>) -> Seq<WrapBoundaryCandidate<W>> {
    match f {
        LineFragment::Text { text } => char_candidates(text@),
        LineFragment::Element { width, len_utf8 } => seq![
            WrapBoundaryCandidate::Element { width, len_utf8 },
        ],
    }
}

/// The UTF-8 length a candidate stands for.
pub open spec fn candidate_len<W>(c: WrapBoundaryCandidate<W>) -> nat {
    match c {
        WrapBoundaryCandidate::Char { character } => utf8_width(character),
        WrapBoundaryCandidate::Element { len_utf8, .. } => len_utf8 as nat,
    }
}

/// The UTF-8 length of a run of candidates.
pub open spec fn candidates_len<W>(cs: Seq<WrapBoundaryCandidate<W>>) -> nat
    decreases cs.len(),
{
    if cs.len() == 0 {
        0
    } else {
        candidate_len(cs[0]) + candidates_len(cs.drop_first())
    }
}

/// The UTF-8 length of a fragment: the byte length of its text (what
/// `str::len` counts), or the element's stated length.
pub open spec fn fragment_len<'a, W>(f: LineFragment<'a, W>) -> nat {
    match f {
        LineFragment::Text { text } => text.spec_bytes().len(),
        LineFragment::Element { len_utf8, .. } => len_utf8 as nat,
    }
}

impl<'a, W: Copy> LineFragment<'a, W> {
    /// Creates a new text fragment from the given text.
    pub fn text(text: &'a str) -> (r: Self)
        ensures
            r == (Self::Text { text }),
    {
        LineFragment::Text { text }
    }

    /// Creates a new non-text element with the given width and UTF-8 length.
    pub fn element(width: W, len_utf8: usize) -> (r: Self)
        ensures
            r == (Self::Element { width, len_utf8 }),
    {
        LineFragment::Element { width, len_utf8 }
    }

    /// The boundary candidates this fragment contributes: one per character
    /// for a text fragment, in order, or a single element candidate.
    pub fn wrap_boundary_candidates(&self) -> (r: Vec<WrapBoundaryCandidate<W>>)
        ensures
            r@ == candidates_of(*self),
    {
        match self {
            LineFragment::Text { text } => {
                let chars = chars_of(text);
                let mut out: Vec<WrapBoundaryCandidate<W>> = Vec::new();
                let mut i: usize = 0;
                assert(out@ =~= char_candidates::<W>(chars@.take(0)));
                while i < chars.len()
                    invariant
                        i <= chars.len(),
                        chars@ == text@,
                        out@ == char_candidates::<W>(chars@.take(i as int)),
                    decreases chars.len() - i,
                {
                    out.push(WrapBoundaryCandidate::Char { character: chars[i] });
                    assert(out@[i as int] == char_candidate::<W>(chars@[i as int]));
                    assert(chars@.take(i + 1) =~= chars@.take(i as int).push(chars@[i as int]));
                    assert(out@ =~= char_candidates::<W>(chars@.take(i + 1)));
                    i = i + 1;
                }
                assert(chars@.take(chars.len() as int) =~= chars@);
                out
            },
            LineFragment::Element { width, len_utf8 } => {
                let mut out: Vec<WrapBoundaryCandidate<W>> = Vec::new();
                out.push(WrapBoundaryCandidate::Element { width: *width, len_utf8: *len_utf8 });
                assert(out@ =~= candidates_of(*self));
                out
            },
        }
    }
}

impl<W> WrapBoundaryCandidate<W> {
    /// The UTF-8 encoded length of this candidate.
    pub fn len_utf8(&self) -> (r: usize)
        ensures
            r == candidate_len(*self),
    {
        match self {
            WrapBoundaryCandidate::Char { character } => len_utf8(*character),
            WrapBoundaryCandidate::Element { len_utf8: len, .. } => *len,
        }
    }
}

/// The candidates of a text run add up to its UTF-8 length.
proof fn lemma_char_candidates_len<W>(s: Seq<char>)
    ensures
        candidates_len(char_candidates::<W>(s)) == utf8_len(s),
    decreases s.len(),
{
    if s.len() > 0 {
        let cs = char_candidates::<W>(s);
        assert(cs.drop_first() =~= char_candidates::<W>(s.drop_first()));
        lemma_char_candidates_len::<W>(s.drop_first());
    }
}

/// The wrap candidates of a fragment account for exactly its UTF-8 length,
/// so wrapping at candidates always splits a line at character boundaries
/// and never loses or invents bytes.
pub proof fn law_candidates_cover_fragment<'a, W>(f: LineFragment<'a, W>)
    ensures
        candidates_len(candidates_of(f)) == fragment_len(f),
{
    match f {
        LineFragment::Text { text } => {
            lemma_char_candidates_len::<W>(text@);
            lemma_utf8_len_is_encoding_length(text@);
            assert(candidates_of(f) == char_candidates::<W>(text@));
            assert(fragment_len(f) == vstd::utf8::encode_utf8(text@).len());
        },
        LineFragment::Element { width, len_utf8 } => {
            let cs = candidates_of(f);
            assert(cs.drop_first() =~= Seq::<WrapBoundaryCandidate<W>>::empty());
            assert(cs[0] == WrapBoundaryCandidate::<W>::Element { width, len_utf8 });
            assert(candidates_len(cs) == candidate_len(cs[0]) + candidates_len(cs.drop_first()));
        },
    }
}

/// A boundary between two lines of text.
#[derive(Clone, Copy, Debug, PartialEq, Eq, Hash, Structural)]
pub struct Boundary {
    /// The index of the last character in a line.
    pub ix: usize,
    /// The indent of the next line.
    pub next_indent: u32,
}

impl Boundary {
    /// Creates a boundary at `ix` with `next_indent` applied to the
    /// following line.
    pub fn new(ix: usize, next_indent: u32) -> (r: Self)
        ensures
            r.ix == ix,
            r.next_indent == next_indent,
    {
        Self { ix, next_indent }
    }
}

} // verus!
