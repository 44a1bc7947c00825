//! Texture pipeline: the ascii loader's tolerance for real world input and
//! the day/night pairing.
use globe::{Texture, TextureError};

/// Ragged maps are padded and unknown glyphs extend the palette, so a hand
/// written texture renders as written instead of panicking. Rows are stored
/// mirrored (the loader reverses each line, as the text format always has).
#[test]
fn ascii_maps_tolerate_real_world_input() {
    let texture = Texture::from_ascii("ab\nabc", None).unwrap();
    assert_eq!(texture.size(), (3, 2), "ragged rows padded to the widest");
    let palette: String = texture.palette().iter().collect();
    assert_eq!(palette, "bac", "glyphs are appended in first-seen order");
}

/// A night map that does not match the day map's size is a configuration
/// error, and it must be caught rather than read out of bounds later.
#[test]
#[should_panic(expected = "night texture must match the day texture size")]
fn mismatched_night_map_is_rejected() {
    let mut texture = Texture::from_ascii("..\n..", None).unwrap();
    if let Err(err) = texture.set_night_ascii("...\n...\n...") {
        assert_eq!(err, TextureError::NightSizeMismatch);
        panic!("{}", err.message());
    }
}
