//! Window title-bar button layouts and their text form.
//!
//! A layout is written as `left:right`, where each side is a comma-separated
//! list of button names (`minimize`, `maximize`, `close`), as desktop
//! environments store it (for instance GNOME's `button-layout` setting).
//! Names are trimmed of white space; unknown names are skipped; a button
//! named a second time, on either side, is skipped; a string without a colon
//! describes the right side only. A string is refused only when it names
//! something, none of it is a button, and so no button is placed at all.

use vstd::prelude::*;
use vstd::string::StrSliceExecFns;
use crate::unicode::{chars_of, is_white_space, is_whitespace};

verus! {

broadcast use vstd::array::group_array_axioms;

/// The number of button slots on each side of the title bar.
pub const MAX_BUTTONS_PER_SIDE: usize = 3;

/// A button in the window title bar.
#[derive(Clone, Copy, Debug, PartialEq, Eq, Hash, Structural)]
pub enum WindowButton {
    /// Minimizes the window.
    Minimize,
    /// Maximizes or restores the window.
    Maximize,
    /// Closes the window.
    Close,
}

/// The name of a button in the layout string.
pub open spec fn button_name(b: WindowButton) -> Seq<char> {
    match b {
        WindowButton::Minimize => seq!['m', 'i', 'n', 'i', 'm', 'i', 'z', 'e'],
        WindowButton::Maximize => seq!['m', 'a', 'x', 'i', 'm', 'i', 'z', 'e'],
        WindowButton::Close => seq!['c', 'l', 'o', 's', 'e'],
    }
}

/// The button a (trimmed) name stands for, if any.
pub open spec fn button_named(t: Seq<char>) -> Option<WindowButton> {
    if t == button_name(WindowButton::Minimize) {
        Some(WindowButton::Minimize)
    } else if t == button_name(WindowButton::Maximize) {
        Some(WindowButton::Maximize)
    } else if t == button_name(WindowButton::Close) {
        Some(WindowButton::Close)
    } else {
        None
    }
}

impl WindowButton {
    /// The button's name, as it is written in a layout string.
    pub fn id(&self) -> (r: &'static str)
        ensures
            r@ == button_name(*self),
    {
        match self {
            WindowButton::Minimize => {
                proof {
                    reveal_strlit("minimize");
                }
                let r = "minimize";
                assert(r@ =~= button_name(*self));
                r
            },
            WindowButton::Maximize => {
                proof {
                    reveal_strlit("maximize");
                }
                let r = "maximize";
                assert(r@ =~= button_name(*self));
                r
            },
            WindowButton::Close => {
                proof {
                    reveal_strlit("close");
                }
                let r = "close";
                assert(r@ =~= button_name(*self));
                r
            },
        }
    }
}

/// Which buttons the title bar shows, and where: up to three slots on each
/// side, filled from the outer edge inwards.
#[derive(Clone, Copy, Debug, PartialEq, Eq)]
pub struct WindowButtonLayout {
    /// The buttons on the left side, in order.
    pub left: [Option<WindowButton>; MAX_BUTTONS_PER_SIDE],
    /// The buttons on the right side, in order.
    pub right: [Option<WindowButton>; MAX_BUTTONS_PER_SIDE],
}

/// A layout string that names things, none of which is a button.
#[derive(Clone, Debug, PartialEq, Eq)]
pub struct ButtonLayoutError {
    /// The layout string as given.
    pub layout: String,
    /// The trimmed names that were not recognized, in the order they appear.
    pub unrecognized: Vec<String>,
}

// ---------------------------------------------------------------------------
// The grammar, as spec functions over characters.
// ---------------------------------------------------------------------------

/// Position of the first `c` in `s`, or `s.len()` when there is none.
pub open spec fn first_index(s: Seq<char>, c: char) -> nat
    decreases s.len(),
{
    if s.len() == 0 {
        0
    } else if s[0] == c {
        0
    } else {
        1 + first_index(s.drop_first(), c)
    }
}

/// `first_index` is within the sequence, and is the first occurrence.
pub proof fn lemma_first_index(s: Seq<char>, c: char)
    ensures
        first_index(s, c) <= s.len(),
        first_index(s, c) < s.len() ==> s[first_index(s, c) as int] == c,
        forall|k: int| 0 <= k < first_index(s, c) ==> s[k] != c,
    decreases s.len(),
{
    if s.len() > 0 && s[0] != c {
        lemma_first_index(s.drop_first(), c);
        assert forall|k: int| 0 <= k < first_index(s, c) implies s[k] != c by {
            if k > 0 {
                assert(s[k] == s.drop_first()[k - 1]);
            }
        }
    }
}

/// A position before which no `c` occurs, and at which `c` occurs or the
/// sequence ends, is `first_index`.
pub proof fn lemma_first_index_at(s: Seq<char>, c: char, m: int)
    requires
        0 <= m <= s.len(),
        forall|k: int| 0 <= k < m ==> s[k] != c,
        m == s.len() || s[m] == c,
    ensures
        first_index(s, c) == m,
    decreases s.len(),
{
    if s.len() > 0 && m > 0 {
        assert forall|k: int| 0 <= k < m - 1 implies s.drop_first()[k] != c by {
            assert(s.drop_first()[k] == s[k + 1]);
        }
        lemma_first_index_at(s.drop_first(), c, m - 1);
    }
}

/// The pieces of `s` between occurrences of `c`, as `str::split` gives them:
/// there is always at least one piece, and pieces may be empty.
pub open spec fn split_on(s: Seq<char>, c: char) -> Seq<Seq<char>>
    decreases s.len(),
{
    let i = first_index(s, c);
    if i >= s.len() {
        seq![s]
    } else {
        proof {
            lemma_first_index(s, c);
        }
        seq![s.take(i as int)] + split_on(s.skip(i as int + 1), c)
    }
}

/// `s` without the white space at its start.
pub open spec fn trim_start(s: Seq<char>) -> Seq<char>
    decreases s.len(),
{
    if s.len() > 0 && is_white_space(s[0]) {
        trim_start(s.drop_first())
    } else {
        s
    }
}

/// `s` without the white space at its end.
pub open spec fn trim_end(s: Seq<char>) -> Seq<char>
    decreases s.len(),
{
    if s.len() > 0 && is_white_space(s.last()) {
        trim_end(s.drop_last())
    } else {
        s
    }
}

/// `s` without white space at either end, as `str::trim` gives it.
pub open spec fn trim(s: Seq<char>) -> Seq<char> {
    trim_end(trim_start(s))
}

/// The two sides of a layout string: before and after its first colon, or
/// nothing and everything when there is no colon.
pub open spec fn split_layout(s: Seq<char>) -> (Seq<char>, Seq<char>) {
    let i = first_index(s, ':');
    if i >= s.len() {
        (Seq::empty(), s)
    } else {
        (s.take(i as int), s.skip(i as int + 1))
    }
}

/// The buttons placed by the pieces of one side, in order, given the
/// buttons already placed (`seen`): a piece places the button it names
/// unless that button is already placed.
pub open spec fn side_buttons(pieces: Seq<Seq<char>>, seen: Seq<WindowButton>) -> Seq<
    WindowButton,
>
    decreases pieces.len(),
{
    if pieces.len() == 0 {
        Seq::empty()
    } else {
        let rest = pieces.drop_first();
        match button_named(trim(pieces[0])) {
            Some(b) => if seen.contains(b) {
                side_buttons(rest, seen)
            } else {
                seq![b] + side_buttons(rest, seen.push(b))
            },
            None => side_buttons(rest, seen),
        }
    }
}

/// The trimmed pieces that are neither empty nor a button name.
pub open spec fn unrecognized(pieces: Seq<Seq<char>>) -> Seq<Seq<char>>
    decreases pieces.len(),
{
    if pieces.len() == 0 {
        Seq::empty()
    } else {
        let t = trim(pieces[0]);
        if t.len() > 0 && button_named(t) is None {
            seq![t] + unrecognized(pieces.drop_first())
        } else {
            unrecognized(pieces.drop_first())
        }
    }
}

/// The buttons a layout string places on the left.
pub open spec fn parsed_left(s: Seq<char>) -> Seq<WindowButton> {
    side_buttons(split_on(split_layout(s).0, ','), Seq::empty())
}

/// The buttons a layout string places on the right.
pub open spec fn parsed_right(s: Seq<char>) -> Seq<WindowButton> {
    side_buttons(split_on(split_layout(s).1, ','), parsed_left(s))
}

/// The names of a layout string that are not buttons, left side first.
pub open spec fn unrecognized_names(s: Seq<char>) -> Seq<Seq<char>> {
    unrecognized(split_on(split_layout(s).0, ',')) + unrecognized(split_on(split_layout(s).1, ','))
}

/// A layout string is refused when it names something but places no button.
pub open spec fn parse_fails(s: Seq<char>) -> bool {
    &&& unrecognized_names(s).len() > 0
    &&& parsed_left(s).len() == 0
    &&& parsed_right(s).len() == 0
}

/// The slots of one side holding the given buttons, from the outer edge.
pub open spec fn padded(bs: Seq<WindowButton>) -> Seq<Option<WindowButton>> {
    Seq::new(
        MAX_BUTTONS_PER_SIDE as nat,
        |i: int|
            if i < bs.len() {
                Some(bs[i])
            } else {
                None
            },
    )
}

/// The buttons in the filled slots, in order.
pub open spec fn placed(slots: Seq<Option<WindowButton>>) -> Seq<WindowButton>
    decreases slots.len(),
{
    if slots.len() == 0 {
        Seq::empty()
    } else {
        match slots[0] {
            Some(b) => seq![b] + placed(slots.drop_first()),
            None => placed(slots.drop_first()),
        }
    }
}

/// The names of the buttons, separated by commas.
pub open spec fn join_names(bs: Seq<WindowButton>) -> Seq<char>
    decreases bs.len(),
{
    if bs.len() == 0 {
        Seq::empty()
    } else if bs.len() == 1 {
        button_name(bs[0])
    } else {
        button_name(bs[0]) + seq![','] + join_names(bs.drop_first())
    }
}

/// Filled slots come before empty ones.
pub open spec fn packed(slots: Seq<Option<WindowButton>>) -> bool {
    forall|i: int, j: int| 0 <= i < j < slots.len() && slots[i] is None ==> slots[j] is None
}

impl WindowButtonLayout {
    /// The text form of the layout: each side's button names joined by
    /// commas, the sides joined by a colon.
    pub open spec fn formatted(self) -> Seq<char> {
        join_names(placed(self.left@)) + seq![':'] + join_names(placed(self.right@))
    }

    /// Each side is filled from the outer edge, and no button appears twice.
    pub open spec fn well_formed(self) -> bool {
        &&& packed(self.left@)
        &&& packed(self.right@)
        &&& (placed(self.left@) + placed(self.right@)).no_duplicates()
    }
}

// ---------------------------------------------------------------------------
// Lemmas about the grammar.
// ---------------------------------------------------------------------------

/// No sequence of distinct buttons is longer than the number of buttons.
proof fn lemma_distinct_buttons_fit(bs: Seq<WindowButton>)
    requires
        bs.no_duplicates(),
    ensures
        bs.len() <= MAX_BUTTONS_PER_SIDE,
{
    if bs.len() > 3 {
        assert(bs[0] != bs[1] && bs[0] != bs[2] && bs[0] != bs[3]);
        assert(bs[1] != bs[2] && bs[1] != bs[3] && bs[2] != bs[3]);
    }
}

/// The buttons one side places are distinct and were not placed before.
proof fn lemma_side_buttons_fresh(pieces: Seq<Seq<char>>, seen: Seq<WindowButton>)
    requires
        seen.no_duplicates(),
    ensures
        (seen + side_buttons(pieces, seen)).no_duplicates(),
    decreases pieces.len(),
{
    if pieces.len() == 0 {
        assert(seen + side_buttons(pieces, seen) =~= seen);
    } else {
        let rest = pieces.drop_first();
        match button_named(trim(pieces[0])) {
            Some(b) => {
                if seen.contains(b) {
                    lemma_side_buttons_fresh(rest, seen);
                } else {
                    assert(seen.push(b).no_duplicates()) by {
                        assert forall|i: int, j: int|
                            0 <= i < j < seen.push(b).len() implies seen.push(b)[i] != seen.push(
                            b,
                        )[j] by {
                            if j == seen.len() {
                                assert(seen.push(b)[i] == seen[i]);
                            }
                        }
                    }
                    lemma_side_buttons_fresh(rest, seen.push(b));
                    assert(seen + side_buttons(pieces, seen) =~= seen.push(b) + side_buttons(
                        rest,
                        seen.push(b),
                    ));
                }
            },
            None => {
                lemma_side_buttons_fresh(rest, seen);
            },
        }
    }
}

/// The slots holding buttons hold exactly those buttons, when there are few
/// enough of them.
proof fn lemma_placed_padded(bs: Seq<WindowButton>)
    requires
        bs.len() <= MAX_BUTTONS_PER_SIDE,
    ensures
        placed(padded(bs)) == bs,
        packed(padded(bs)),
{
    let p = padded(bs);
    reveal_with_fuel(placed, 4);
    assert(p.drop_first().drop_first().drop_first() =~= Seq::<Option<WindowButton>>::empty());
    if bs.len() == 0 {
        assert(placed(p) =~= bs);
    } else if bs.len() == 1 {
        assert(placed(p) =~= bs);
    } else if bs.len() == 2 {
        assert(placed(p) =~= bs);
    } else {
        assert(placed(p) =~= bs);
    }
}

/// Packed slots are the padding of the buttons they hold.
proof fn lemma_padded_placed(slots: Seq<Option<WindowButton>>)
    requires
        slots.len() == MAX_BUTTONS_PER_SIDE,
        packed(slots),
    ensures
        padded(placed(slots)) == slots,
{
    reveal_with_fuel(placed, 4);
    assert(slots.drop_first().drop_first().drop_first() =~= Seq::<
        Option<WindowButton>,
    >::empty());
    assert(padded(placed(slots)) =~= slots);
}

/// Filling one more slot adds its button, if any, at the end.
proof fn lemma_placed_push(s: Seq<Option<WindowButton>>, x: Option<WindowButton>)
    ensures
        placed(s.push(x)) == placed(s) + match x {
            Some(b) => seq![b],
            None => Seq::<WindowButton>::empty(),
        },
    decreases s.len(),
{
    if s.len() == 0 {
        assert(s.push(x).drop_first() =~= Seq::<Option<WindowButton>>::empty());
        assert(s.push(x)[0] == x);
        assert(placed(Seq::<Option<WindowButton>>::empty()) == Seq::<WindowButton>::empty());
        assert(placed(s.push(x)) =~= placed(s) + match x {
            Some(b) => seq![b],
            None => Seq::<WindowButton>::empty(),
        });
    } else {
        assert(s.push(x).drop_first() =~= s.drop_first().push(x));
        lemma_placed_push(s.drop_first(), x);
        assert(placed(s.push(x)) =~= placed(s) + match x {
            Some(b) => seq![b],
            None => Seq::<WindowButton>::empty(),
        });
    }
}

/// Joining one more name appends a comma and the name.
proof fn lemma_join_push(bs: Seq<WindowButton>, b: WindowButton)
    ensures
        join_names(bs.push(b)) == if bs.len() == 0 {
            button_name(b)
        } else {
            join_names(bs) + seq![','] + button_name(b)
        },
    decreases bs.len(),
{
    if bs.len() == 0 {
        assert(bs.push(b)[0] == b);
    } else if bs.len() == 1 {
        assert(bs.push(b).drop_first() =~= seq![b]);
        assert(seq![b][0] == b);
        assert(bs.push(b)[0] == bs[0]);
        assert(join_names(seq![b]) == button_name(b));
    } else {
        assert(bs.push(b).drop_first() =~= bs.drop_first().push(b));
        lemma_join_push(bs.drop_first(), b);
        assert(join_names(bs.push(b)) =~= join_names(bs) + seq![','] + button_name(b));
    }
}

/// No button name holds a comma, a colon or white space.
proof fn lemma_name_chars(b: WindowButton)
    ensures
        button_name(b).len() > 0,
        forall|k: int|
            0 <= k < button_name(b).len() ==> button_name(b)[k] != ',' && button_name(b)[k]
                != ':' && !is_white_space(#[trigger] button_name(b)[k]),
{
}

/// A button's name is trimmed already, and names that button.
proof fn lemma_name_reads_back(b: WindowButton)
    ensures
        trim(button_name(b)) == button_name(b),
        button_named(button_name(b)) == Some(b),
{
    lemma_name_chars(b);
    let n = button_name(b);
    assert(!is_white_space(n[0]));
    assert(!is_white_space(n.last()));
    assert(trim_start(n) == n);
    assert(trim_end(n) == n);
    assert(button_name(WindowButton::Minimize)[1] != button_name(WindowButton::Maximize)[1]);
    assert(button_name(WindowButton::Minimize).len() != button_name(WindowButton::Close).len());
    assert(button_name(WindowButton::Maximize).len() != button_name(WindowButton::Close).len());
}

/// The joined names hold no colon, and no comma outside the separators.
proof fn lemma_join_no_colon(bs: Seq<WindowButton>)
    ensures
        forall|k: int| 0 <= k < join_names(bs).len() ==> join_names(bs)[k] != ':',
    decreases bs.len(),
{
    if bs.len() == 1 {
        lemma_name_chars(bs[0]);
    } else if bs.len() > 1 {
        lemma_name_chars(bs[0]);
        lemma_join_no_colon(bs.drop_first());
        let n = button_name(bs[0]);
        let j = join_names(bs);
        assert forall|k: int| 0 <= k < j.len() implies j[k] != ':' by {
            if k < n.len() {
                assert(j[k] == n[k]);
            } else if k > n.len() {
                assert(j[k] == join_names(bs.drop_first())[k - n.len() - 1]);
            }
        }
    }
}

/// Splitting joined names at commas gives back the names.
proof fn lemma_split_join(bs: Seq<WindowButton>)
    requires
        bs.len() > 0,
    ensures
        split_on(join_names(bs), ',') == bs.map_values(|b: WindowButton| button_name(b)),
    decreases bs.len(),
{
    lemma_name_chars(bs[0]);
    let n = button_name(bs[0]);
    if bs.len() == 1 {
        lemma_first_index_at(n, ',', n.len() as int);
        assert(split_on(n, ',') =~= bs.map_values(|b: WindowButton| button_name(b)));
    } else {
        let j = join_names(bs);
        let rest = join_names(bs.drop_first());
        assert(j == n + seq![','] + rest);
        assert forall|k: int| 0 <= k < n.len() implies j[k] != ',' by {
            assert(j[k] == n[k]);
        }
        lemma_first_index_at(j, ',', n.len() as int);
        assert(j.take(n.len() as int) =~= n);
        assert(j.skip(n.len() + 1int) =~= rest);
        lemma_split_join(bs.drop_first());
        assert(split_on(j, ',') =~= bs.map_values(|b: WindowButton| button_name(b)));
    }
}

/// The names of distinct buttons, none placed before, place those buttons
/// and are all recognized.
proof fn lemma_side_of_names(bs: Seq<WindowButton>, seen: Seq<WindowButton>)
    requires
        (seen + bs).no_duplicates(),
    ensures
        side_buttons(bs.map_values(|b: WindowButton| button_name(b)), seen) == bs,
        unrecognized(bs.map_values(|b: WindowButton| button_name(b))).len() == 0,
    decreases bs.len(),
{
    let pieces = bs.map_values(|b: WindowButton| button_name(b));
    if bs.len() > 0 {
        let b = bs[0];
        lemma_name_reads_back(b);
        assert(pieces[0] == button_name(b));
        assert(!seen.contains(b)) by {
            if seen.contains(b) {
                let i = choose|i: int| 0 <= i < seen.len() && seen[i] == b;
                assert((seen + bs)[i] == (seen + bs)[seen.len() as int]);
            }
        }
        assert(pieces.drop_first() =~= bs.drop_first().map_values(
            |b: WindowButton| button_name(b),
        ));
        assert(seen.push(b) + bs.drop_first() =~= seen + bs);
        lemma_side_of_names(bs.drop_first(), seen.push(b));
        assert(side_buttons(pieces, seen) =~= bs);
    } else {
        assert(side_buttons(pieces, seen) =~= bs);
    }
}

/// A side written with the given distinct buttons reads back as them.
proof fn lemma_side_of_join(bs: Seq<WindowButton>, seen: Seq<WindowButton>)
    requires
        (seen + bs).no_duplicates(),
    ensures
        side_buttons(split_on(join_names(bs), ','), seen) == bs,
        unrecognized(split_on(join_names(bs), ',')).len() == 0,
{
    if bs.len() > 0 {
        lemma_split_join(bs);
        lemma_side_of_names(bs, seen);
    } else {
        let e = Seq::<char>::empty();
        assert(join_names(bs) == e);
        assert(split_on(e, ',') == seq![e]);
        assert(trim_start(e) == e);
        assert(trim(e) == e);
        assert(button_named(e) is None);
        assert(seq![e].drop_first() =~= Seq::<Seq<char>>::empty());
        assert(seq![e][0] == e);
        assert(side_buttons(Seq::<Seq<char>>::empty(), seen) == Seq::<WindowButton>::empty());
        assert(unrecognized(Seq::<Seq<char>>::empty()) == Seq::<Seq<char>>::empty());
        assert(side_buttons(seq![e], seen) =~= bs);
        assert(unrecognized(seq![e]) =~= Seq::<Seq<char>>::empty());
    }
}

// ---------------------------------------------------------------------------
// Laws.
// ---------------------------------------------------------------------------

/// Reading back the text form of a well-formed layout gives that layout:
/// the string is accepted, and each side holds the same slots.
pub proof fn law_parse_of_format(layout: WindowButtonLayout)
    requires
        layout.well_formed(),
    ensures
        !parse_fails(layout.formatted()),
        padded(parsed_left(layout.formatted())) == layout.left@,
        padded(parsed_right(layout.formatted())) == layout.right@,
{
    let l = placed(layout.left@);
    let r = placed(layout.right@);
    let s = layout.formatted();
    let jl = join_names(l);
    let jr = join_names(r);
    assert(s == jl + seq![':'] + jr);
    lemma_join_no_colon(l);
    assert forall|k: int| 0 <= k < jl.len() implies s[k] != ':' by {
        assert(s[k] == jl[k]);
    }
    lemma_first_index_at(s, ':', jl.len() as int);
    assert(s.take(jl.len() as int) =~= jl);
    assert(s.skip(jl.len() + 1int) =~= jr);
    assert((l + r).no_duplicates());
    assert(l.no_duplicates()) by {
        assert forall|i: int, j: int| 0 <= i < j < l.len() implies l[i] != l[j] by {
            assert(l[i] == (l + r)[i] && l[j] == (l + r)[j]);
        }
    }
    assert(Seq::<WindowButton>::empty() + l =~= l);
    lemma_side_of_join(l, Seq::empty());
    assert(parsed_left(s) == l);
    lemma_side_of_join(r, l);
    assert(parsed_right(s) == r);
    assert(unrecognized_names(s).len() == 0);
    lemma_padded_placed(layout.left@);
    lemma_padded_placed(layout.right@);
}

/// What a layout string places is a well-formed layout: no button twice,
/// each side filled from the outer edge.
pub proof fn law_parse_is_well_formed(s: Seq<char>)
    ensures
        parsed_left(s).len() <= MAX_BUTTONS_PER_SIDE,
        parsed_right(s).len() <= MAX_BUTTONS_PER_SIDE,
        packed(padded(parsed_left(s))),
        packed(padded(parsed_right(s))),
        placed(padded(parsed_left(s))) == parsed_left(s),
        placed(padded(parsed_right(s))) == parsed_right(s),
        (parsed_left(s) + parsed_right(s)).no_duplicates(),
{
    let e = Seq::<WindowButton>::empty();
    lemma_side_buttons_fresh(split_on(split_layout(s).0, ','), e);
    assert(e + parsed_left(s) =~= parsed_left(s));
    lemma_side_buttons_fresh(split_on(split_layout(s).1, ','), parsed_left(s));
    let both = parsed_left(s) + parsed_right(s);
    assert(parsed_left(s).no_duplicates()) by {
        assert forall|i: int, j: int|
            0 <= i < j < parsed_left(s).len() implies parsed_left(s)[i] != parsed_left(s)[j] by {
            assert(parsed_left(s)[i] == both[i] && parsed_left(s)[j] == both[j]);
        }
    }
    assert(parsed_right(s).no_duplicates()) by {
        assert forall|i: int, j: int|
            0 <= i < j < parsed_right(s).len() implies parsed_right(s)[i]
            != parsed_right(s)[j] by {
            let o = parsed_left(s).len() as int;
            assert(parsed_right(s)[i] == both[o + i] && parsed_right(s)[j] == both[o + j]);
        }
    }
    lemma_distinct_buttons_fit(parsed_left(s));
    lemma_distinct_buttons_fit(parsed_right(s));
    lemma_placed_padded(parsed_left(s));
    lemma_placed_padded(parsed_right(s));
}

/// Whether a side of a layout string has a piece that, trimmed, names a
/// button.
pub open spec fn side_names_a_button(side: Seq<char>) -> bool {
    exists|i: int|
        0 <= i < split_on(side, ',').len() && (#[trigger] button_named(
            trim(split_on(side, ',')[i]),
        )) is Some
}

/// A side that places no button names only buttons placed before it.
proof fn lemma_placeless_side_names_only_seen(pieces: Seq<Seq<char>>, seen: Seq<WindowButton>, i: int)
    requires
        side_buttons(pieces, seen).len() == 0,
        0 <= i < pieces.len(),
        button_named(trim(pieces[i])) is Some,
    ensures
        seen.contains(button_named(trim(pieces[i]))->Some_0),
    decreases pieces.len(),
{
    if i > 0 {
        match button_named(trim(pieces[0])) {
            Some(b) => {
                if !seen.contains(b) {
                    assert((seq![b] + side_buttons(pieces.drop_first(), seen.push(b))).len() > 0);
                }
            },
            None => {},
        }
        assert(pieces.drop_first()[i - 1] == pieces[i]);
        lemma_placeless_side_names_only_seen(pieces.drop_first(), seen, i - 1);
    } else {
        let b = button_named(trim(pieces[0]))->Some_0;
        if !seen.contains(b) {
            assert((seq![b] + side_buttons(pieces.drop_first(), seen.push(b))).len() > 0);
        }
    }
}

/// A layout string is refused only when it places no button at all, on
/// either side, and names something that is not a button; a string with a
/// button name on either side is accepted, whatever else it names.
pub proof fn law_parse_refuses_only_placeless(s: Seq<char>)
    ensures
        parse_fails(s) ==> parsed_left(s).len() == 0 && parsed_right(s).len() == 0,
        parse_fails(s) ==> unrecognized_names(s).len() > 0,
        parsed_left(s).len() > 0 || parsed_right(s).len() > 0 ==> !parse_fails(s),
        unrecognized_names(s).len() == 0 ==> !parse_fails(s),
        side_names_a_button(split_layout(s).0) ==> !parse_fails(s),
        side_names_a_button(split_layout(s).1) ==> !parse_fails(s),
{
    let lp = split_on(split_layout(s).0, ',');
    let rp = split_on(split_layout(s).1, ',');
    if parse_fails(s) && side_names_a_button(split_layout(s).0) {
        let i = choose|i: int|
            0 <= i < lp.len() && (#[trigger] button_named(trim(lp[i]))) is Some;
        lemma_placeless_side_names_only_seen(lp, Seq::empty(), i);
    }
    if parse_fails(s) && side_names_a_button(split_layout(s).1) {
        let i = choose|i: int|
            0 <= i < rp.len() && (#[trigger] button_named(trim(rp[i]))) is Some;
        lemma_placeless_side_names_only_seen(rp, parsed_left(s), i);
    }
}

// ---------------------------------------------------------------------------
// Executable code.
// ---------------------------------------------------------------------------

/// The first position in `chars[lo..hi]` holding `c`, or `hi`.
fn find_char(chars: &Vec<char>, lo: usize, hi: usize, c: char) -> (j: usize)
    requires
        lo <= hi <= chars.len(),
    ensures
        lo <= j <= hi,
        first_index(chars@.subrange(lo as int, hi as int), c) == j - lo,
{
    let mut j = lo;
    while j < hi && chars[j] != c
        invariant
            lo <= j <= hi <= chars.len(),
            forall|k: int| lo <= k < j ==> chars@[k] != c,
        decreases hi - j,
    {
        j = j + 1;
    }
    let ghost s = chars@.subrange(lo as int, hi as int);
    assert forall|k: int| 0 <= k < j - lo implies s[k] != c by {
        assert(s[k] == chars@[lo + k]);
    }
    proof {
        lemma_first_index_at(s, c, (j - lo) as int);
    }
    j
}

/// The bounds of `chars[start..end]` with its white space trimmed.
fn trim_bounds(chars: &Vec<char>, start: usize, end: usize) -> (r: (usize, usize))
    requires
        start <= end <= chars.len(),
    ensures
        start <= r.0 <= r.1 <= end,
        trim(chars@.subrange(start as int, end as int)) == chars@.subrange(r.0 as int, r.1 as int),
{
    let mut a = start;
    while a < end && is_whitespace(chars[a])
        invariant
            start <= a <= end <= chars.len(),
            trim_start(chars@.subrange(start as int, end as int)) == trim_start(
                chars@.subrange(a as int, end as int),
            ),
        decreases end - a,
    {
        assert(chars@.subrange(a as int, end as int).drop_first() =~= chars@.subrange(
            a + 1,
            end as int,
        ));
        a = a + 1;
    }
    let mut b = end;
    while b > a && is_whitespace(chars[b - 1])
        invariant
            start <= a <= b <= end <= chars.len(),
            trim_start(chars@.subrange(start as int, end as int)) == chars@.subrange(
                a as int,
                end as int,
            ),
            trim_end(chars@.subrange(a as int, end as int)) == trim_end(
                chars@.subrange(a as int, b as int),
            ),
        decreases b - a,
    {
        assert(chars@.subrange(a as int, b as int).drop_last() =~= chars@.subrange(
            a as int,
            b - 1,
        ));
        b = b - 1;
    }
    (a, b)
}

/// Whether `chars[a..b]` spells `word`.
fn span_equals(chars: &Vec<char>, a: usize, b: usize, word: &Vec<char>) -> (r: bool)
    requires
        a <= b <= chars.len(),
    ensures
        r == (chars@.subrange(a as int, b as int) == word@),
{
    if b - a != word.len() {
        return false;
    }
    let mut k: usize = 0;
    while k < word.len()
        invariant
            a <= b <= chars.len(),
            b - a == word.len(),
            k <= word.len(),
            forall|i: int| 0 <= i < k ==> chars@[a + i] == word@[i],
        decreases word.len() - k,
    {
        if chars[a + k] != word[k] {
            assert(chars@.subrange(a as int, b as int)[k as int] != word@[k as int]);
            return false;
        }
        k = k + 1;
    }
    assert(chars@.subrange(a as int, b as int) =~= word@);
    true
}

/// The button that `chars[a..b]` names, if any.
fn classify(chars: &Vec<char>, a: usize, b: usize) -> (r: Option<WindowButton>)
    requires
        a <= b <= chars.len(),
    ensures
        r == button_named(chars@.subrange(a as int, b as int)),
{
    let minimize = chars_of(WindowButton::Minimize.id());
    if span_equals(chars, a, b, &minimize) {
        return Some(WindowButton::Minimize);
    }
    let maximize = chars_of(WindowButton::Maximize.id());
    if span_equals(chars, a, b, &maximize) {
        return Some(WindowButton::Maximize);
    }
    let close = chars_of(WindowButton::Close.id());
    if span_equals(chars, a, b, &close) {
        return Some(WindowButton::Close);
    }
    None
}

/// Whether `b` occurs in `v`.
fn holds(v: &Vec<WindowButton>, b: WindowButton) -> (r: bool)
    ensures
        r == v@.contains(b),
{
    let mut i: usize = 0;
    while i < v.len()
        invariant
            i <= v.len(),
            forall|k: int| 0 <= k < i ==> v@[k] != b,
        decreases v.len() - i,
    {
        if v[i] == b {
            return true;
        }
        i = i + 1;
    }
    false
}

/// The views of a list of strings.
pub open spec fn string_views(v: Seq<String>) -> Seq<Seq<char>> {
    v.map_values(|x: String| x@)
}

/// Reads the pieces of `chars[lo..hi]`, returning the buttons they place
/// after those in `other`, and appending the unrecognized names to `unrec`.
fn parse_side(
    s: &str,
    chars: &Vec<char>,
    lo: usize,
    hi: usize,
    other: &Vec<WindowButton>,
    unrec: &mut Vec<String>,
) -> (placed_here: Vec<WindowButton>)
    requires
        chars@ == s@,
        lo <= hi <= chars.len(),
    ensures
        placed_here@ == side_buttons(split_on(chars@.subrange(lo as int, hi as int), ','), other@),
        string_views(final(unrec)@) == string_views(old(unrec)@) + unrecognized(
            split_on(chars@.subrange(lo as int, hi as int), ','),
        ),
{
    let ghost all = split_on(chars@.subrange(lo as int, hi as int), ',');
    let ghost unrec0 = string_views(unrec@);
    let mut placed_here: Vec<WindowButton> = Vec::new();
    let mut start = lo;
    let mut more = true;
    while more
        invariant
            chars@ == s@,
            lo <= start <= hi <= chars.len(),
            all == split_on(chars@.subrange(lo as int, hi as int), ','),
            more ==> side_buttons(all, other@) == placed_here@ + side_buttons(
                split_on(chars@.subrange(start as int, hi as int), ','),
                other@ + placed_here@,
            ),
            more ==> unrec0 + unrecognized(all) == string_views(unrec@) + unrecognized(
                split_on(chars@.subrange(start as int, hi as int), ','),
            ),
            !more ==> side_buttons(all, other@) == placed_here@,
            !more ==> unrec0 + unrecognized(all) == string_views(unrec@),
        decreases hi - start + if more {
            1int
        } else {
            0int
        },
    {
        let end = find_char(chars, start, hi, ',');
        let ghost sub = chars@.subrange(start as int, hi as int);
        let ghost piece = chars@.subrange(start as int, end as int);
        let ghost rest = if end < hi {
            split_on(chars@.subrange(end + 1, hi as int), ',')
        } else {
            Seq::<Seq<char>>::empty()
        };
        proof {
            if end < hi {
                assert(sub.take(end - start) =~= piece);
                assert(sub.skip(end - start + 1) =~= chars@.subrange(end + 1, hi as int));
            } else {
                assert(sub =~= piece);
            }
            assert(split_on(sub, ',') =~= seq![piece] + rest);
            assert((seq![piece] + rest)[0] == piece);
            assert((seq![piece] + rest).drop_first() =~= rest);
        }
        let (a, b) = trim_bounds(chars, start, end);
        let named = classify(chars, a, b);
        let ghost seen = other@ + placed_here@;
        let ghost views_before = string_views(unrec@);
        match named {
            Some(btn) => {
                if !holds(other, btn) && !holds(&placed_here, btn) {
                    assert(!seen.contains(btn)) by {
                        if seen.contains(btn) {
                            let i = choose|i: int| 0 <= i < seen.len() && seen[i] == btn;
                            if i < other@.len() {
                                assert(other@[i] == btn);
                            } else {
                                assert(placed_here@[i - other@.len()] == btn);
                            }
                        }
                    }
                    placed_here.push(btn);
                    assert(other@ + placed_here@ =~= seen.push(btn));
                } else {
                    assert(seen.contains(btn)) by {
                        if other@.contains(btn) {
                            let i = choose|i: int| 0 <= i < other@.len() && other@[i] == btn;
                            assert(seen[i] == btn);
                        } else {
                            let i = choose|i: int|
                                0 <= i < placed_here@.len() && placed_here@[i] == btn;
                            assert(seen[other@.len() + i] == btn);
                        }
                    }
                }
            },
            None => {
                if a < b {
                    let name = s.substring_char(a, b).to_owned();
                    unrec.push(name);
                    assert(string_views(unrec@) =~= views_before.push(
                        chars@.subrange(a as int, b as int),
                    ));
                }
            },
        }
        proof {
            let t = chars@.subrange(a as int, b as int);
            if named is None && a < b {
                assert(unrecognized(seq![piece] + rest) =~= seq![t] + unrecognized(rest));
            } else {
                assert(unrecognized(seq![piece] + rest) == unrecognized(rest));
                assert(string_views(unrec@) == views_before);
            }
        }
        if end < hi {
            start = end + 1;
        } else {
            more = false;
            proof {
                assert(side_buttons(rest, other@ + placed_here@) =~= Seq::<WindowButton>::empty());
                assert(unrecognized(rest) =~= Seq::<Seq<char>>::empty());
            }
        }
    }
    placed_here
}

/// The slot `i` of a side holding the buttons of `v`.
fn slot(v: &Vec<WindowButton>, i: usize) -> (r: Option<WindowButton>)
    ensures
        i < v.len() ==> r == Some(v@[i as int]),
        i >= v.len() ==> r is None,
{
    if i < v.len() {
        Some(v[i])
    } else {
        None
    }
}

/// The slots of a side holding the buttons of `v`.
fn pad(v: &Vec<WindowButton>) -> (a: [Option<WindowButton>; MAX_BUTTONS_PER_SIDE])
    ensures
        a@ == padded(v@),
{
    let a = [slot(v, 0), slot(v, 1), slot(v, 2)];
    assert(a@ =~= padded(v@));
    a
}

/// Appends the names of the buttons in `slots`, separated by commas.
fn append_side(out: &mut String, slots: &[Option<WindowButton>; MAX_BUTTONS_PER_SIDE])
    ensures
        final(out)@ == old(out)@ + join_names(placed(slots@)),
{
    let ghost start = out@;
    let mut first = true;
    let mut i: usize = 0;
    while i < MAX_BUTTONS_PER_SIDE
        invariant
            i <= MAX_BUTTONS_PER_SIDE,
            slots@.len() == MAX_BUTTONS_PER_SIDE,
            out@ == start + join_names(placed(slots@.take(i as int))),
            first == (placed(slots@.take(i as int)).len() == 0),
        decreases MAX_BUTTONS_PER_SIDE - i,
    {
        let ghost before = placed(slots@.take(i as int));
        assert(slots@.take(i + 1) =~= slots@.take(i as int).push(slots@[i as int]));
        proof {
            lemma_placed_push(slots@.take(i as int), slots@[i as int]);
        }
        if let Some(b) = slots[i] {
            proof {
                lemma_join_push(before, b);
            }
            if !first {
                out.append(",");
                proof {
                    reveal_strlit(",");
                }
                assert(","@ =~= seq![',']);
            }
            out.append(b.id());
            assert(placed(slots@.take(i + 1)) =~= before.push(b));
            first = false;
        } else {
            assert(placed(slots@.take(i + 1)) =~= before);
        }
        i = i + 1;
    }
    assert(slots@.take(MAX_BUTTONS_PER_SIDE as int) =~= slots@);
}

impl WindowButtonLayout {
    /// The layout most Linux desktops use: minimize, maximize and close on
    /// the right.
    pub fn linux_default() -> (l: Self)
        ensures
            l.left@ == seq![None::<WindowButton>, None, None],
            l.right@ == seq![
                Some(WindowButton::Minimize),
                Some(WindowButton::Maximize),
                Some(WindowButton::Close),
            ],
    {
        let l = WindowButtonLayout {
            left: [None, None, None],
            right: [
                Some(WindowButton::Minimize),
                Some(WindowButton::Maximize),
                Some(WindowButton::Close),
            ],
        };
        assert(l.left@ =~= seq![None::<WindowButton>, None, None]);
        assert(l.right@ =~= seq![
            Some(WindowButton::Minimize),
            Some(WindowButton::Maximize),
            Some(WindowButton::Close),
        ]);
        l
    }

    /// Reads a layout string such as `close:minimize,maximize`.
    pub fn parse(layout_string: &str) -> (r: Result<Self, ButtonLayoutError>)
        ensures
            r is Err <==> parse_fails(layout_string@),
            r is Err ==> parsed_left(layout_string@).len() == 0 && parsed_right(layout_string@).len()
                == 0 && unrecognized_names(layout_string@).len() > 0,
            side_names_a_button(split_layout(layout_string@).0) || side_names_a_button(
                split_layout(layout_string@).1,
            ) ==> r is Ok,
            r matches Ok(l) ==> l.left@ == padded(parsed_left(layout_string@)) && l.right@
                == padded(parsed_right(layout_string@)) && l.well_formed(),
            r matches Ok(l) ==> !parse_fails(l.formatted()) && padded(parsed_left(l.formatted()))
                == l.left@ && padded(parsed_right(l.formatted())) == l.right@,
            r matches Err(e) ==> e.layout@ == layout_string@ && string_views(e.unrecognized@)
                == unrecognized_names(layout_string@),
    {
        let chars = chars_of(layout_string);
        let n = chars.len();
        let colon = find_char(&chars, 0, n, ':');
        let ghost s = chars@;
        assert(s.subrange(0, n as int) =~= s);
        let (llo, lhi, rlo) = if colon < n {
            (0, colon, colon + 1)
        } else {
            (0, 0, 0)
        };
        proof {
            lemma_first_index(s, ':');
            if colon < n {
                assert(s.take(colon as int) =~= s.subrange(0, colon as int));
                assert(s.skip(colon + 1) =~= s.subrange(colon + 1, n as int));
            } else {
                assert(s.subrange(0, 0) =~= Seq::<char>::empty());
            }
            assert(split_layout(s).0 == s.subrange(llo as int, lhi as int));
            assert(split_layout(s).1 == s.subrange(rlo as int, n as int));
        }
        let mut unrec: Vec<String> = Vec::new();
        assert(string_views(unrec@) =~= Seq::<Seq<char>>::empty());
        let nothing: Vec<WindowButton> = Vec::new();
        let left = parse_side(layout_string, &chars, llo, lhi, &nothing, &mut unrec);
        assert(nothing@ =~= Seq::<WindowButton>::empty());
        let right = parse_side(layout_string, &chars, rlo, n, &left, &mut unrec);
        assert(string_views(unrec@) =~= unrecognized_names(s));
        proof {
            law_parse_is_well_formed(s);
            law_parse_refuses_only_placeless(s);
        }
        if unrec.len() > 0 && left.len() == 0 && right.len() == 0 {
            Err(ButtonLayoutError { layout: layout_string.to_owned(), unrecognized: unrec })
        } else {
            let l = WindowButtonLayout { left: pad(&left), right: pad(&right) };
            proof {
                assert(l.well_formed());
                law_parse_of_format(l);
            }
            Ok(l)
        }
    }

    /// Writes the layout as a string that `parse` reads back.
    pub fn format(&self) -> (r: String)
        ensures
            r@ == self.formatted(),
    {
        let mut out = String::new();
        append_side(&mut out, &self.left);
        out.append(":");
        proof {
            reveal_strlit(":");
        }
        assert(":"@ =~= seq![':']);
        append_side(&mut out, &self.right);
        out
    }
}

} // verus!
