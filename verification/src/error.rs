//! Errors of texture construction.

use vstd::prelude::*;

verus! {

/// Why a texture could not be built.
#[derive(Clone, Copy, PartialEq, Eq, Debug, Structural)]
pub enum TextureError {
    /// The image's cell grid does not fit in memory.
    ImageTooLarge,
    /// Indexing the image would grow the palette beyond 255 glyphs, or
    /// would need a glyph whose palette index a level byte cannot hold.
    PaletteOverflow,
    /// The night image's size differs from the day image's.
    NightSizeMismatch,
    /// A baked night image's palette differs from the day palette.
    NightPaletteMismatch,
    /// Neither a day nor a night image was given.
    NoTexture,
}

impl TextureError {
    /// The message the failure is reported with.
    pub fn message(self) -> (m: &'static str)
        ensures
            m@ == spec_error_message(self),
    {
        match self {
            TextureError::ImageTooLarge => "texture image too large",
            TextureError::PaletteOverflow => "palette overflow",
            TextureError::NightSizeMismatch => "night texture must match the day texture size",
            TextureError::NightPaletteMismatch => "day and night textures need the same palette",
            TextureError::NoTexture => "texture not provided",
        }
    }
}

/// The message of each error.
pub open spec fn spec_error_message(e: TextureError) -> Seq<char> {
    match e {
        TextureError::ImageTooLarge => "texture image too large"@,
        TextureError::PaletteOverflow => "palette overflow"@,
        TextureError::NightSizeMismatch => "night texture must match the day texture size"@,
        TextureError::NightPaletteMismatch => "day and night textures need the same palette"@,
        TextureError::NoTexture => "texture not provided"@,
    }
}

} // verus!
