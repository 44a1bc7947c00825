//! Baked `GIDX1` texture images.
//!
//! The file is self describing, little endian:
//!
//! ```text
//! 0..6             magic "GIDX1\n"
//! 6..10            columns, u32
//! 10..14           rows, u32
//! 14               levels, u8
//! 15..15 + levels  palette glyphs, one ascii byte per level
//! 15 + levels..    rows * cols level bytes, row major, first row on top
//! ```
//!
//! The level bytes are borrowed in place: no copy, no per-texel heap.

use vstd::prelude::*;

verus! {

/// The magic bytes `"GIDX1\n"`.
pub open spec fn gidx_magic() -> Seq<u8> {
    seq![0x47u8, 0x49u8, 0x44u8, 0x58u8, 0x31u8, 0x0au8]
}

/// Little-endian `u32` of four bytes.
pub open spec fn le_u32(b0: u8, b1: u8, b2: u8, b3: u8) -> nat {
    (b0 + 256 * b1 + 65536 * b2 + 16777216 * b3) as nat
}

/// Column count of a `GIDX1` header.
pub open spec fn gidx_cols(d: Seq<u8>) -> nat {
    le_u32(d[6], d[7], d[8], d[9])
}

/// Row count of a `GIDX1` header.
pub open spec fn gidx_rows(d: Seq<u8>) -> nat {
    le_u32(d[10], d[11], d[12], d[13])
}

/// Palette size of a `GIDX1` header.
pub open spec fn gidx_levels(d: Seq<u8>) -> nat {
    d[14] as nat
}

/// Offset just past the level bytes of a `GIDX1` image.
pub open spec fn gidx_end(d: Seq<u8>) -> nat {
    15 + gidx_levels(d) + gidx_rows(d) * gidx_cols(d)
}

/// Whether `d` starts with a `GIDX1` header.
pub open spec fn gidx_has_magic(d: Seq<u8>) -> bool {
    d.len() >= 15 && d.take(6) == gidx_magic()
}

/// Whether a `GIDX1` header describes a non-empty image that `d` holds
/// in full.
pub open spec fn gidx_complete(d: Seq<u8>) -> bool {
    &&& gidx_levels(d) > 0
    &&& gidx_cols(d) > 0
    &&& gidx_rows(d) > 0
    &&& d.len() >= gidx_end(d)
}

/// Whether `d` is a well-formed `GIDX1` image.
pub open spec fn gidx_well_formed(d: Seq<u8>) -> bool {
    gidx_has_magic(d) && gidx_complete(d)
}

/// Why a `GIDX1` image was refused.
#[derive(Clone, Copy, PartialEq, Eq, Debug, Structural)]
pub enum GidxError {
    /// The data does not start with a `GIDX1` header.
    BadMagic,
    /// The header describes an empty image or more data than there is.
    Truncated,
}

impl GidxError {
    /// The message the failure is reported with.
    pub fn message(self) -> (m: &'static str)
        ensures
            self == GidxError::BadMagic ==> m@ == "not a GIDX1 texture"@,
            self == GidxError::Truncated ==> m@ == "truncated GIDX1 texture"@,
    {
        match self {
            GidxError::BadMagic => "not a GIDX1 texture",
            GidxError::Truncated => "truncated GIDX1 texture",
        }
    }
}

/// Abstract value of a baked image.
pub struct BakedView {
    /// Level bytes, row major.
    pub levels: Seq<u8>,
    /// Palette glyphs: level `i` renders as `palette[i]`.
    pub palette: Seq<char>,
    /// Size in texels as `(columns, rows)`.
    pub size: (usize, usize),
}

/// The image a well-formed `GIDX1` file holds.
pub open spec fn gidx_view(d: Seq<u8>) -> BakedView {
    BakedView {
        levels: d.subrange(15 + gidx_levels(d) as int, gidx_end(d) as int),
        palette: d.subrange(15, 15 + gidx_levels(d) as int).map_values(|b: u8| b as char),
        size: (gidx_cols(d) as usize, gidx_rows(d) as usize),
    }
}

/// Baked texture image: compact palette-index data, used in place.
///
/// Texels are stored in library texture space, which is the readable ascii
/// image mirrored along x. One byte holds one texel.
pub struct Baked {
    data: &'static [u8],
    palette: Vec<char>,
    size: (usize, usize),
}

impl View for Baked {
    type V = BakedView;

    closed spec fn view(&self) -> BakedView {
        BakedView { levels: self.data@, palette: self.palette@, size: self.size }
    }
}

impl Baked {
    /// A baked image's levels fill its texel grid.
    #[verifier::type_invariant]
    pub open spec fn inv(self) -> bool {
        baked_well_formed(self@)
    }
}

impl Clone for Baked {
    fn clone(&self) -> (r: Baked)
        ensures
            r@ == self@,
            r.data() == self.data(),
    {
        proof {
            use_type_invariant(self);
        }
        Baked { data: self.data, palette: self.palette.clone(), size: self.size }
    }
}

impl Baked {
    /// The level bytes, as the slice of the parsed data they are.
    pub closed spec fn data(&self) -> &'static [u8] {
        self.data
    }
}

/// Whether a baked image's levels fill its texel grid.
pub open spec fn baked_well_formed(b: BakedView) -> bool {
    &&& b.levels.len() == b.size.0 * b.size.1
    &&& 0 < b.palette.len() <= 255
    &&& b.size.0 > 0
    &&& b.size.1 > 0
}

/// The bytes of a header field as a `usize`.
fn read_le_u32(data: &[u8], at: usize) -> (v: usize)
    requires
        at + 4 <= data@.len(),
    ensures
        v as nat == le_u32(data@[at as int], data@[at + 1], data@[at + 2], data@[at + 3]),
{
    let b0 = data[at] as usize;
    let b1 = data[at + 1] as usize;
    let b2 = data[at + 2] as usize;
    let b3 = data[at + 3] as usize;
    b0 + 256 * b1 + 65536 * b2 + 16777216 * b3
}

impl Baked {
    /// Parses a baked image in place, failing on a bad magic or a
    /// truncated file.
    pub fn parse(data: &'static [u8]) -> (r: Result<Baked, GidxError>)
        ensures
            match r {
                Ok(b) => {
                    &&& gidx_well_formed(data@)
                    &&& b@ == gidx_view(data@)
                    &&& baked_well_formed(b@)
                    &&& b.data()@ == b@.levels
                },
                Err(e) => !gidx_well_formed(data@) && (e == GidxError::BadMagic <==> !gidx_has_magic(data@)),
            },
    {
        if data.len() < 15 || data[0] != 0x47 || data[1] != 0x49 || data[2] != 0x44
            || data[3] != 0x58 || data[4] != 0x31 || data[5] != 0x0a {
            proof {
                if data@.len() >= 15 && data@.take(6) == gidx_magic() {
                    assert(data@.take(6)[0] == data@[0]);
                    assert(data@.take(6)[1] == data@[1]);
                    assert(data@.take(6)[2] == data@[2]);
                    assert(data@.take(6)[3] == data@[3]);
                    assert(data@.take(6)[4] == data@[4]);
                    assert(data@.take(6)[5] == data@[5]);
                }
            }
            return Err(GidxError::BadMagic);
        }
        assert(data@.take(6) =~= gidx_magic());
        let cols = read_le_u32(data, 6);
        let rows = read_le_u32(data, 10);
        let levels = data[14] as usize;
        let end = match rows.checked_mul(cols) {
            Some(n) => {
                if data.len() < 15 + levels || n > data.len() - 15 - levels {
                    return Err(GidxError::Truncated);
                }
                15 + levels + n
            },
            None => {
                return Err(GidxError::Truncated);
            },
        };
        if levels == 0 || cols == 0 || rows == 0 || data.len() < end {
            return Err(GidxError::Truncated);
        }
        let mut palette: Vec<char> = Vec::new();
        let mut i: usize = 0;
        while i < levels
            invariant
                levels == gidx_levels(data@),
                15 + levels <= data@.len(),
                i <= levels,
                palette@ =~= data@.subrange(15, 15 + i).map_values(|b: u8| b as char),
            decreases levels - i,
        {
            let b = data[15 + i];
            palette.push(b as char);
            i = i + 1;
        }
        let levels_data = &data[15 + levels..end];
        assert(palette@ == gidx_view(data@).palette);
        assert(levels_data@ == gidx_view(data@).levels);
        assert(gidx_well_formed(data@));
        assert(rows * cols == cols * rows) by (nonlinear_arith);
        Ok(Baked { data: levels_data, palette, size: (cols, rows) })
    }

    /// Texture dimensions in texels.
    pub fn size(&self) -> (r: (usize, usize))
        ensures
            r == self@.size,
            baked_well_formed(self@),
    {
        proof {
            use_type_invariant(self);
        }
        self.size
    }

    /// Palette glyphs: level `i` renders as `palette()[i]`.
    pub fn palette(&self) -> (r: &[char])
        ensures
            r@ == self@.palette,
    {
        self.palette.as_slice()
    }

    /// An owned copy of the palette.
    pub(crate) fn palette_owned(&self) -> (r: Vec<char>)
        ensures
            r@ == self@.palette,
    {
        self.palette.clone()
    }

    /// Level bytes, row major, borrowed in place from the parsed data.
    pub fn levels(&self) -> (r: &'static [u8])
        ensures
            r == self.data(),
            r@ == self@.levels,
            baked_well_formed(self@),
    {
        proof {
            use_type_invariant(self);
        }
        self.data
    }
}

} // verus!
