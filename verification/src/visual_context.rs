//! What deriving a visual context decides about the struct it is applied
//! to: which field holds the `&mut Window` (the field marked `#[window]`)
//! and which holds the `&mut App` (the field marked `#[app]`), or which of
//! the two markers is missing.
//!
//! The derive then writes an impl that forwards the visual-context
//! operations to those two fields; writing it is token generation and is
//! not modelled here.

use vstd::prelude::*;
use crate::unicode::str_eq;

verus! {

/// A named field of the struct the derive is applied to, with the names of
/// the attributes it carries.
#[derive(Clone, Debug, PartialEq, Eq)]
pub struct FieldAttributes {
    /// The field's name.
    pub name: String,
    /// The names of the field's attributes, in order.
    pub attributes: Vec<String>,
}

/// A marker the derive needs and did not find.
#[derive(Clone, Copy, Debug, PartialEq, Eq)]
pub enum VisualContextError {
    /// No field is marked `#[window]`.
    MissingWindow,
    /// No field is marked `#[app]`.
    MissingApp,
}

/// The fields the derived impl forwards to.
#[derive(Clone, Debug, PartialEq, Eq)]
pub struct VisualContextFields {
    /// The name of the field holding the window.
    pub window: String,
    /// The name of the field holding the app.
    pub app: String,
}

/// Whether the field carries the attribute.
pub open spec fn carries(f: FieldAttributes, attr: Seq<char>) -> bool {
    exists|j: int| 0 <= j < f.attributes@.len() && #[trigger] f.attributes@[j]@ == attr
}

/// The position of the first field carrying the attribute, if any.
pub open spec fn first_carrying(fields: Seq<FieldAttributes>, attr: Seq<char>) -> Option<int>
    decreases fields.len(),
{
    if fields.len() == 0 {
        None
    } else if carries(fields.last(), attr) && first_carrying(fields.drop_last(), attr) is None {
        Some(fields.len() - 1)
    } else {
        first_carrying(fields.drop_last(), attr)
    }
}

/// The attribute marking the window field.
pub open spec fn window_attr() -> Seq<char> {
    seq!['w', 'i', 'n', 'd', 'o', 'w']
}

/// The attribute marking the app field.
pub open spec fn app_attr() -> Seq<char> {
    seq!['a', 'p', 'p']
}

/// The message each missing marker is reported with.
pub open spec fn error_message(e: VisualContextError) -> Seq<char> {
    match e {
        VisualContextError::MissingWindow => seq!['D', 'e', 'r', 'i', 'v', 'e', ' ', 'm', 'u', 's', 't', ' ', 'h', 'a', 'v', 'e', ' ', 'a', ' ', '#', '[', 'w', 'i', 'n', 'd', 'o', 'w', ']', ' ', 'a', 't', 't', 'r', 'i', 'b', 'u', 't', 'e', ' ', 't', 'o', ' ', 'd', 'e', 't', 'e', 'c', 't', ' ', 't', 'h', 'e', ' ', '&', 'm', 'u', 't', ' ', 'W', 'i', 'n', 'd', 'o', 'w', ' ', 'f', 'i', 'e', 'l', 'd'],
        VisualContextError::MissingApp => seq!['D', 'e', 'r', 'i', 'v', 'e', ' ', 'm', 'u', 's', 't', ' ', 'h', 'a', 'v', 'e', ' ', 'a', ' ', '#', '[', 'a', 'p', 'p', ']', ' ', 'a', 't', 't', 'r', 'i', 'b', 'u', 't', 'e', ' ', 't', 'o', ' ', 'd', 'e', 't', 'e', 'c', 't', ' ', 't', 'h', 'e', ' ', '&', 'm', 'u', 't', ' ', 'A', 'p', 'p', ' ', 'f', 'i', 'e', 'l', 'd'],
    }
}

impl VisualContextError {
    /// The message the derive reports.
    pub fn message(&self) -> (r: String)
        ensures
            r@ == error_message(*self),
    {
        let m = match self {
            VisualContextError::MissingWindow => {
                proof {
                    reveal_strlit("Derive must have a #[window] attribute to detect the &mut Window field");
                }
                "Derive must have a #[window] attribute to detect the &mut Window field"
            },
            VisualContextError::MissingApp => {
                proof {
                    reveal_strlit("Derive must have a #[app] attribute to detect the &mut App field");
                }
                "Derive must have a #[app] attribute to detect the &mut App field"
            },
        };
        assert(m@ =~= error_message(*self));
        m.to_owned()
    }
}

/// Whether the field carries the attribute named `attr`.
fn field_carries(field: &FieldAttributes, attr: &str) -> (r: bool)
    ensures
        r == carries(*field, attr@),
{
    let mut j: usize = 0;
    while j < field.attributes.len()
        invariant
            j <= field.attributes.len(),
            forall|k: int| 0 <= k < j ==> field.attributes@[k]@ != attr@,
        decreases field.attributes.len() - j,
    {
        if str_eq(field.attributes[j].as_str(), attr) {
            return true;
        }
        j = j + 1;
    }
    false
}

/// The position of the first field carrying the attribute named `attr`.
fn find_carrying(fields: &Vec<FieldAttributes>, attr: &str) -> (r: Option<usize>)
    ensures
        match r {
            Some(i) => i < fields.len() && first_carrying(fields@, attr@) == Some(i as int),
            None => first_carrying(fields@, attr@) is None,
        },
{
    let mut i: usize = 0;
    while i < fields.len()
        invariant
            i <= fields.len(),
            first_carrying(fields@.take(i as int), attr@) is None,
        decreases fields.len() - i,
    {
        assert(fields@.take(i + 1).drop_last() =~= fields@.take(i as int));
        if field_carries(&fields[i], attr) {
            proof {
                lemma_first_carrying_prefix(fields@, attr@, i as int);
            }
            return Some(i);
        }
        i = i + 1;
    }
    assert(fields@.take(fields.len() as int) =~= fields@);
    None
}

/// A field found first in a prefix is found first in the whole list.
proof fn lemma_first_carrying_prefix(fields: Seq<FieldAttributes>, attr: Seq<char>, i: int)
    requires
        0 <= i < fields.len(),
        carries(fields[i], attr),
        first_carrying(fields.take(i), attr) is None,
    ensures
        first_carrying(fields, attr) == Some(i),
    decreases fields.len(),
{
    if i == fields.len() - 1 {
        assert(fields.drop_last() =~= fields.take(i));
    } else {
        assert(fields.drop_last().take(i) =~= fields.take(i));
        assert(fields.drop_last()[i] == fields[i]);
        lemma_first_carrying_prefix(fields.drop_last(), attr, i);
    }
}

/// The fields a visual-context derive forwards to: the first field marked
/// `#[window]` and the first marked `#[app]`. A missing window marker is
/// reported before a missing app marker.
pub fn visual_context_fields(fields: &Vec<FieldAttributes>) -> (r: Result<
    VisualContextFields,
    VisualContextError,
>)
    ensures
        first_carrying(fields@, window_attr()) is None ==> r == Err::<
            VisualContextFields,
            VisualContextError,
        >(VisualContextError::MissingWindow),
        first_carrying(fields@, window_attr()) is Some && first_carrying(fields@, app_attr()) is None
            ==> r == Err::<VisualContextFields, VisualContextError>(
            VisualContextError::MissingApp,
        ),
        first_carrying(fields@, window_attr()) is Some && first_carrying(fields@, app_attr()) is Some
            ==> r is Ok,
        r matches Ok(found) ==> {
            &&& first_carrying(fields@, window_attr()) matches Some(w) && found.window@
                == fields@[w].name@
            &&& first_carrying(fields@, app_attr()) matches Some(a) && found.app@
                == fields@[a].name@
        },
{
    let window = "window";
    let app = "app";
    proof {
        reveal_strlit("window");
        reveal_strlit("app");
    }
    assert(window@ =~= window_attr());
    assert(app@ =~= app_attr());
    let w = match find_carrying(fields, window) {
        Some(w) => w,
        None => {
            return Err(VisualContextError::MissingWindow);
        },
    };
    let a = match find_carrying(fields, app) {
        Some(a) => a,
        None => {
            return Err(VisualContextError::MissingApp);
        },
    };
    Ok(VisualContextFields { window: fields[w].name.clone(), app: fields[a].name.clone() })
}

} // verus!
