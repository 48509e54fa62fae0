//! The content a paint surface draws: a native texture handle of the
//! platform's renderer with its size, or a placeholder size on platforms
//! that cannot import native surfaces.
//!
//! The handle type `H` is the platform's (a type-erased GPU texture); the
//! surface only carries it.

use vstd::prelude::*;
use crate::geometry::{DevicePixels, Size};

verus! {

/// A source of a surface's content.
#[derive(Clone)]
pub enum SurfaceSource<H> {
    /// A GPU texture handle.
    Texture {
        /// The texture.
        texture: H,
        /// Dimensions of the texture in device pixels.
        size: Size<DevicePixels>,
    },
    /// A placeholder for platforms that cannot import native surfaces.
    Unsupported(Size<DevicePixels>),
}

/// The size a surface source stands for.
pub open spec fn surface_size<H>(s: SurfaceSource<H>) -> Size<DevicePixels> {
    match s {
        SurfaceSource::Texture { size, .. } => size,
        SurfaceSource::Unsupported(size) => size,
    }
}

impl<H> SurfaceSource<H> {
    /// The size of the surface's content in device pixels.
    pub fn size(&self) -> (r: Size<DevicePixels>)
        ensures
            r == surface_size(*self),
    {
        match self {
            SurfaceSource::Texture { size, .. } => *size,
            SurfaceSource::Unsupported(size) => *size,
        }
    }
}

} // verus!
