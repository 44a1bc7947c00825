//! Sub-cell glyph alphabets.

use vstd::prelude::*;

use crate::text::{char_from_u32, str_is};

verus! {

/// Sub-cell glyph alphabet: how many samples one character cell carries.
#[derive(Clone, Copy, PartialEq, Eq, Debug, Structural)]
pub enum Glyph {
    /// One sample per cell, palette glyphs.
    Ascii,
    /// 1x2 samples per cell: ` `, `▀`, `▄`, `█`.
    Half,
    /// 2x4 samples per cell: 8-dot braille.
    Braille,
}

/// Samples per cell as `(columns, rows)`.
pub open spec fn spec_sub(g: Glyph) -> (usize, usize) {
    match g {
        Glyph::Ascii => (1, 1),
        Glyph::Half => (1, 2),
        Glyph::Braille => (2, 4),
    }
}

/// Stable lowercase name of an alphabet.
pub open spec fn spec_glyph_name(g: Glyph) -> Seq<char> {
    match g {
        Glyph::Ascii => "ascii"@,
        Glyph::Half => "half"@,
        Glyph::Braille => "braille"@,
    }
}

/// The alphabet whose name is `s`, if any.
pub open spec fn spec_glyph_from_name(s: Seq<char>) -> Option<Glyph> {
    if s == "ascii"@ {
        Some(Glyph::Ascii)
    } else if s == "half"@ {
        Some(Glyph::Half)
    } else if s == "braille"@ {
        Some(Glyph::Braille)
    } else {
        None
    }
}

/// Half-block glyph for the two low bits of a dot mask.
pub open spec fn spec_half_block(mask: u8) -> char {
    let m = mask % 4;
    if m == 1 {
        '\u{2580}'
    } else if m == 2 {
        '\u{2584}'
    } else if m == 3 {
        '\u{2588}'
    } else {
        ' '
    }
}

impl Glyph {
    /// Samples per cell as `(columns, rows)`.
    pub fn sub(self) -> (r: (usize, usize))
        ensures
            r == spec_sub(self),
    {
        match self {
            Glyph::Ascii => (1, 1),
            Glyph::Half => (1, 2),
            Glyph::Braille => (2, 4),
        }
    }
}

impl Glyph {
    /// Stable lowercase name, as accepted by [`Glyph::from_name`].
    pub fn name(self) -> (r: &'static str)
        ensures
            r@ == spec_glyph_name(self),
    {
        match self {
            Glyph::Ascii => "ascii",
            Glyph::Half => "half",
            Glyph::Braille => "braille",
        }
    }

    /// Parses a [`Glyph::name`].
    pub fn from_name(name: &str) -> (r: Option<Glyph>)
        ensures
            r == spec_glyph_from_name(name@),
    {
        if str_is(name, "ascii") {
            Some(Glyph::Ascii)
        } else if str_is(name, "half") {
            Some(Glyph::Half)
        } else if str_is(name, "braille") {
            Some(Glyph::Braille)
        } else {
            None
        }
    }
}

/// Every alphabet's name parses back to that alphabet.
pub proof fn lemma_glyph_name_round_trip(g: Glyph)
    ensures
        spec_glyph_from_name(spec_glyph_name(g)) == Some(g),
{
    reveal_strlit("ascii");
    reveal_strlit("half");
    reveal_strlit("braille");
    assert("ascii"@.len() == 5 && "half"@.len() == 4 && "braille"@.len() == 7);
}

/// A name that parses is the parsed alphabet's own name.
pub proof fn lemma_glyph_from_name_sound(s: Seq<char>)
    ensures
        spec_glyph_from_name(s) matches Some(g) ==> spec_glyph_name(g) == s,
{
}

/// Glyph for a sub-cell dot mask. Braille maps mask `m` to `U+2800 + m`
/// (a blank cell is `U+2800`, not a space); half blocks read the two low
/// bits; the ascii alphabet draws no dots.
pub fn glyph_for(glyph: Glyph, mask: u8) -> (c: char)
    ensures
        glyph == Glyph::Braille ==> c as u32 == 0x2800 + mask as u32,
        glyph == Glyph::Half ==> c == spec_half_block(mask),
        glyph == Glyph::Ascii ==> c == ' ',
{
    match glyph {
        Glyph::Braille => {
            let code: u32 = 0x2800u32 + mask as u32;
            match char_from_u32(code) {
                Some(c) => c,
                None => ' ',
            }
        },
        Glyph::Half => {
            let m = mask & 3;
            assert(m == mask % 4) by (bit_vector)
                requires
                    m == mask & 3,
            ;
            if m == 1 {
                '\u{2580}'
            } else if m == 2 {
                '\u{2584}'
            } else if m == 3 {
                '\u{2588}'
            } else {
                ' '
            }
        },
        Glyph::Ascii => ' ',
    }
}

/// Braille cells decode without a font: distinct dot masks give distinct
/// glyphs, and the glyph's code minus `U+2800` is the mask.
pub proof fn lemma_braille_glyph_decodes(c: char, mask: u8)
    requires
        c as u32 == 0x2800 + mask as u32,
    ensures
        (c as u32 - 0x2800) as u8 == mask,
{
}

} // verus!
