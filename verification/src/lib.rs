//! Customizable ASCII globe generator: the verified core.
//!
//! The library holds the glyph alphabets, the sky crossfade ramp, the
//! texture formats (baked `GIDX1` images and ascii images) and the canvas.

pub mod baked;
pub mod canvas;
pub mod diff;
pub mod dither;
pub mod error;
pub mod glyph;
pub mod image;
pub mod ramp;
pub mod sky;
pub mod template;
pub mod text;
pub mod texture;

pub use baked::{Baked, GidxError};
pub use canvas::{fullscreen_canvas, window_canvas, Canvas};
pub use error::TextureError;
pub use glyph::{glyph_for, Glyph};
pub use template::GlobeTemplate;
pub use texture::{assemble, build_texture, ImageSource, Texture};
