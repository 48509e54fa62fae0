//! Platform-independent vocabulary of a GPU-accelerated UI toolkit: window
//! button layouts, clipboard strings and image formats, font and glyph
//! identifiers, atlas keys, line-wrap fragments and the no-op text system,
//! each with its behaviour stated and proved.

pub mod geometry;
pub mod unicode;
pub mod window_button;
pub mod clipboard;
pub mod text;
pub mod line_wrapper;
pub mod atlas;
pub mod scene;
pub mod display;
pub mod window;
pub mod platform;
pub mod noop_text_system;
pub mod image_decode;
pub mod dispatch;
pub mod gamma;
pub mod visual_context;
pub mod surface;
