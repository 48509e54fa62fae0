//! How a window should be opened: windowed, maximized or fullscreen, with
//! the bounds to restore it to.
//!
//! Bounds are in the caller's pixel type `P` (logical pixels, which are
//! floats, in the toolkit).

use vstd::prelude::*;
use crate::geometry::Bounds;

verus! {

/// Represents the status of how a window should be opened.
#[derive(Clone, Copy, Debug, PartialEq)]
pub enum WindowBounds<P> {
    /// The window opens in a windowed state with the given bounds.
    Windowed(Bounds<P>),
    /// The window opens maximized; the bounds are its restore size.
    Maximized(Bounds<P>),
    /// The window opens fullscreen; the bounds are its restore size.
    Fullscreen(Bounds<P>),
}

/// The bounds a window state carries.
pub open spec fn inner_bounds<P>(w: WindowBounds<P>) -> Bounds<P> {
    match w {
        WindowBounds::Windowed(b) => b,
        WindowBounds::Maximized(b) => b,
        WindowBounds::Fullscreen(b) => b,
    }
}

impl<P: Copy> WindowBounds<P> {
    /// Retrieve the inner bounds.
    pub fn get_bounds(&self) -> (r: Bounds<P>)
        ensures
            r == inner_bounds(*self),
    {
        match self {
            WindowBounds::Windowed(bounds) => *bounds,
            WindowBounds::Maximized(bounds) => *bounds,
            WindowBounds::Fullscreen(bounds) => *bounds,
        }
    }
}

} // verus!
