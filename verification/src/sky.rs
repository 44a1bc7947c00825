//! The integer half of the star field: lattice hashing and the glyph
//! decisions that follow from a star cell's hash.
//!
//! A sky ray is projected and quantised to lattice coordinates by float
//! arithmetic; from there on the field is pure integer hashing. The
//! decisions below are shared by the ascii alphabet (which draws a glyph)
//! and the block alphabets (which threshold a brightness), so both show the
//! same stars.

use vstd::prelude::*;

use crate::ramp::RAMP;

verus! {

/// Depth layer of a star lattice cell, from the hashed ray coordinates.
pub open spec fn spec_star_depth(hy: u32, hxz: u32) -> u32 {
    let h0 = hy.wrapping_mul(2246822519u32).wrapping_add(hxz.wrapping_mul(3266489917u32));
    let h1 = (h0 ^ (h0 >> 15u32)).wrapping_mul(2654435761u32);
    let h2 = h1 ^ (h1 >> 13u32);
    (h2 >> 27u32) & 3u32
}

/// Depth layer (one of four) of the lattice cell a ray falls in; `hy` and
/// `hxz` are the ray's quantised coordinates.
pub fn star_depth(hy: u32, hxz: u32) -> (d: u32)
    ensures
        d == spec_star_depth(hy, hxz),
        d < 4,
{
    let mut h: u32 = hy.wrapping_mul(2246822519u32).wrapping_add(hxz.wrapping_mul(3266489917u32));
    h = (h ^ (h >> 15u32)).wrapping_mul(2654435761u32);
    h = h ^ (h >> 13u32);
    let d = (h >> 27u32) & 3u32;
    assert(d < 4) by (bit_vector)
        requires
            d == (h >> 27u32) & 3u32,
    ;
    d
}

/// Integer division rounding toward zero, as Rust's `/` does.
pub open spec fn div_toward_zero(v: int, d: int) -> int {
    if v >= 0 {
        v / d
    } else {
        -((-v) / d)
    }
}

/// Lattice coordinate shifted by the quantised camera: deeper layers pan
/// faster, by `(1 + depth) / 4` of the camera bin.
pub open spec fn spec_star_coord(base: isize, q: isize, depth: u32) -> int {
    base + div_toward_zero(q * (1 + depth), 4)
}

/// Whether shifting `base` by the camera bin `q` stays in range.
pub open spec fn star_coord_fits(base: isize, q: isize, depth: u32) -> bool {
    &&& isize::MIN <= q * (1 + depth) <= isize::MAX
    &&& isize::MIN <= spec_star_coord(base, q, depth) <= isize::MAX
}

/// Hash of a star cell at lattice coordinates `(sx, sz)` in layer `depth`.
pub open spec fn spec_star_hash(sx: isize, sz: isize, depth: u32) -> u32 {
    let s0 = (sx as u32).wrapping_mul(374761393u32).wrapping_add(
        (sz as u32).wrapping_mul(668265263u32),
    ).wrapping_add(depth.wrapping_mul(2246822519u32));
    let s1 = (s0 ^ (s0 >> 13u32)).wrapping_mul(1274126177u32);
    s1 ^ (s1 >> 16u32)
}

/// Camera-shifted lattice coordinate of a star cell.
pub fn star_coord(base: isize, q: isize, depth: u32) -> (c: isize)
    requires
        depth < 4,
        star_coord_fits(base, q, depth),
    ensures
        c == spec_star_coord(base, q, depth),
{
    let m: isize = q * (1 + depth as isize);
    let shift: isize = m / 4;
    base + shift
}

/// Hash of a star cell: which star, if any, the cell shows.
pub fn star_hash(sx: isize, sz: isize, depth: u32) -> (h: u32)
    ensures
        h == spec_star_hash(sx, sz, depth),
{
    let mut sh: u32 = (sx as u32).wrapping_mul(374761393u32).wrapping_add(
        (sz as u32).wrapping_mul(668265263u32),
    ).wrapping_add(depth.wrapping_mul(2246822519u32));
    sh = (sh ^ (sh >> 13u32)).wrapping_mul(1274126177u32);
    sh ^ (sh >> 16u32)
}

/// Whether a faint star survives in the dust lane: the dust blocks the
/// glow for 70% of hashes, leaving sparse stars.
pub open spec fn spec_dust_star(sh: u32) -> bool {
    let r = sh % 1000;
    r % 10 < 7 && r < 90
}

/// Whether a faint star survives in the dust lane at hash `sh`.
pub fn dust_star(sh: u32) -> (b: bool)
    ensures
        b == spec_dust_star(sh),
{
    let r = sh % 1000;
    r % 10 < 7 && r < 90
}

/// Static brightness tier (0..7) of a milky way cell.
pub fn band_pick(sh: u32) -> (p: u32)
    ensures
        p == (sh >> 9u32) % 7,
        p < 7,
{
    (sh >> 9u32) % 7
}

/// Ramp index of a milky way cell, given its envelope-scaled tier
/// `scaled`: clamped to the ramp, with a rare static core star, shown with
/// fill probability 720/1000 in the core and 200/1000 outside.
pub open spec fn spec_band_star(sh: u32, scaled: usize, core: bool) -> Option<usize> {
    let idx: usize = if scaled > 6 {
        6
    } else {
        scaled
    };
    let idx: usize = if core && idx == 5 && sh % 13 == 0 {
        6
    } else {
        idx
    };
    let fill: u32 = if core {
        720
    } else {
        200
    };
    if sh % 1000 < fill {
        Some(idx)
    } else {
        None
    }
}

/// Ramp index a milky way cell shows, or `None` for an empty cell.
pub fn band_star(sh: u32, scaled: usize, core: bool) -> (r: Option<usize>)
    ensures
        r == spec_band_star(sh, scaled, core),
        r matches Some(i) ==> i <= 6,
{
    let mut idx = scaled;
    if idx > 6 {
        idx = 6;
    }
    if core && idx == 5 && sh % 13 == 0 {
        idx = 6;
    }
    let fill: u32 = if core {
        720
    } else {
        200
    };
    if sh % 1000 < fill {
        Some(idx)
    } else {
        None
    }
}

/// Tier (0..13) of a sparse field star, or `None` for an empty cell: about
/// 3% of cells in the nearest layer to 5% in the deepest.
pub open spec fn spec_field_star(sh: u32, depth: u32) -> Option<u32> {
    if sh % 1000 < 30 + depth * 8 {
        Some((sh >> 24u32) % 13)
    } else {
        None
    }
}

/// Tier of the sparse field star at hash `sh` in layer `depth`.
pub fn field_star(sh: u32, depth: u32) -> (r: Option<u32>)
    requires
        depth < 4,
    ensures
        r == spec_field_star(sh, depth),
        r matches Some(t) ==> t < 13,
{
    if sh % 1000 < 30 + depth * 8 {
        Some((sh >> 24u32) % 13)
    } else {
        None
    }
}

/// Ascii glyph of a field star tier: dots dominate, bright stars are rare
/// and only in the two nearest layers.
pub open spec fn spec_field_glyph(tier: u32, depth: u32) -> char {
    if tier <= 7 {
        '.'
    } else if tier <= 9 {
        ':'
    } else if tier == 10 {
        ';'
    } else if tier == 11 {
        '+'
    } else if depth < 2 {
        '*'
    } else {
        ':'
    }
}

/// Ascii glyph of a field star.
pub fn field_glyph(tier: u32, depth: u32) -> (c: char)
    ensures
        c == spec_field_glyph(tier, depth),
{
    if tier <= 7 {
        '.'
    } else if tier <= 9 {
        ':'
    } else if tier == 10 {
        ';'
    } else if tier == 11 {
        '+'
    } else if depth < 2 {
        '*'
    } else {
        ':'
    }
}

/// The field is sparse: at most 54 cells in 1000 hold a field star, and a
/// bright `'*'` only shows in the two nearest layers.
pub proof fn lemma_field_is_sparse(sh: u32, depth: u32)
    requires
        depth < 4,
    ensures
        spec_field_star(sh, depth) is Some ==> sh % 1000 < 54,
        spec_field_star(sh, depth) matches Some(t) && spec_field_glyph(t, depth) == '*' ==> depth < 2,
{
}

/// What a sky cell away from the sun shows: nothing, a faint star in the
/// dust lane, a milky way cell at a ramp index, or a field star tier.
#[derive(Clone, Copy, PartialEq, Eq, Debug, Structural)]
pub enum SkyStar {
    /// An empty cell.
    Blank,
    /// A faint star left in the dust lane.
    Dust,
    /// A milky way cell at this ramp index.
    Band(usize),
    /// A sparse field star of this tier.
    Field(u32),
}

/// The dust lane cell at hash `sh`.
pub fn rift_cell(sh: u32) -> (s: SkyStar)
    ensures
        s == (if spec_dust_star(sh) {
            SkyStar::Dust
        } else {
            SkyStar::Blank
        }),
{
    if dust_star(sh) {
        SkyStar::Dust
    } else {
        SkyStar::Blank
    }
}

/// The milky way cell at hash `sh` with envelope-scaled tier `scaled`.
pub fn band_cell(sh: u32, scaled: usize, core: bool) -> (s: SkyStar)
    ensures
        s == match spec_band_star(sh, scaled, core) {
            Some(i) => SkyStar::Band(i),
            None => SkyStar::Blank,
        },
        s matches SkyStar::Band(i) ==> i <= 6,
{
    match band_star(sh, scaled, core) {
        Some(i) => SkyStar::Band(i),
        None => SkyStar::Blank,
    }
}

/// The sparse field cell at hash `sh` in layer `depth`.
pub fn field_cell(sh: u32, depth: u32) -> (s: SkyStar)
    requires
        depth < 4,
    ensures
        s == match spec_field_star(sh, depth) {
            Some(t) => SkyStar::Field(t),
            None => SkyStar::Blank,
        },
        s matches SkyStar::Field(t) ==> t < 13,
{
    match field_star(sh, depth) {
        Some(t) => SkyStar::Field(t),
        None => SkyStar::Blank,
    }
}

/// The cell a sky ray away from the sun shows, from where its band
/// distance falls: inside the dust lane of the milky way core it is the
/// rift, elsewhere on the milky way a band cell at envelope-scaled tier
/// `scaled`, off the milky way a field cell.
pub open spec fn spec_sky_cell(
    sh: u32,
    depth: u32,
    in_band: bool,
    core: bool,
    in_dust: bool,
    scaled: usize,
) -> SkyStar {
    if in_band && core && in_dust {
        if spec_dust_star(sh) {
            SkyStar::Dust
        } else {
            SkyStar::Blank
        }
    } else if in_band {
        match spec_band_star(sh, scaled, core) {
            Some(i) => SkyStar::Band(i),
            None => SkyStar::Blank,
        }
    } else {
        match spec_field_star(sh, depth) {
            Some(t) => SkyStar::Field(t),
            None => SkyStar::Blank,
        }
    }
}

/// Picks the dust lane, the milky way or the sparse field for a sky ray
/// away from the sun; `in_band`, `core` and `in_dust` say whether its band
/// distance is within the milky way, its core and the dust lane.
pub fn sky_cell(sh: u32, depth: u32, in_band: bool, core: bool, in_dust: bool, scaled: usize) -> (s:
    SkyStar)
    requires
        depth < 4,
    ensures
        s == spec_sky_cell(sh, depth, in_band, core, in_dust, scaled),
        star_valid(s),
{
    if in_band && core && in_dust {
        rift_cell(sh)
    } else if in_band {
        band_cell(sh, scaled, core)
    } else {
        field_cell(sh, depth)
    }
}

/// Whether a sky cell names a valid ramp index or field tier.
pub open spec fn star_valid(s: SkyStar) -> bool {
    match s {
        SkyStar::Band(i) => i <= 6,
        SkyStar::Field(t) => t < 13,
        _ => true,
    }
}

/// Ascii glyph of a sky cell in layer `depth`.
pub open spec fn spec_star_glyph(s: SkyStar, depth: u32) -> char {
    match s {
        SkyStar::Blank => ' ',
        SkyStar::Dust => '.',
        SkyStar::Band(i) => RAMP@[i as int],
        SkyStar::Field(t) => spec_field_glyph(t, depth),
    }
}

/// Brightness of a sky cell for the block alphabets, in sixtieths: faint
/// dust stars 0.2, the milky way its ramp index over 6, field stars from
/// 0.7 (dots) up to 1.0 (bright stars).
pub open spec fn spec_star_level(s: SkyStar) -> u32 {
    match s {
        SkyStar::Blank => 0,
        SkyStar::Dust => 12,
        SkyStar::Band(i) => (10 * i) as u32,
        SkyStar::Field(t) => if t <= 7 {
            42
        } else if t <= 9 {
            48
        } else if t == 10 {
            54
        } else if t == 11 {
            57
        } else {
            60
        },
    }
}

/// Ascii glyph of a sky cell.
pub fn star_glyph(s: SkyStar, depth: u32) -> (c: char)
    requires
        star_valid(s),
    ensures
        c == spec_star_glyph(s, depth),
{
    match s {
        SkyStar::Blank => ' ',
        SkyStar::Dust => '.',
        SkyStar::Band(i) => RAMP[i],
        SkyStar::Field(t) => field_glyph(t, depth),
    }
}

/// Brightness of a sky cell, in sixtieths of full brightness.
pub fn star_level(s: SkyStar) -> (l: u32)
    requires
        star_valid(s),
    ensures
        l == spec_star_level(s),
        l <= 60,
{
    match s {
        SkyStar::Blank => 0,
        SkyStar::Dust => 12,
        SkyStar::Band(i) => (10 * i) as u32,
        SkyStar::Field(t) => {
            if t <= 7 {
                42
            } else if t <= 9 {
                48
            } else if t == 10 {
                54
            } else if t == 11 {
                57
            } else {
                60
            }
        },
    }
}

/// The ascii and block alphabets show the same sky: a cell is blank in
/// ascii exactly when its block brightness is zero, and on the milky way a
/// brighter ramp glyph means a brighter dot.
pub proof fn lemma_ascii_and_blocks_agree(s: SkyStar, t: SkyStar, depth: u32)
    requires
        star_valid(s),
        star_valid(t),
    ensures
        (spec_star_glyph(s, depth) == ' ') <==> (spec_star_level(s) == 0),
        s matches SkyStar::Band(i) && t matches SkyStar::Band(j) && i < j ==> spec_star_level(s)
            < spec_star_level(t),
{
}

/// The dust lane keeps only sparse faint stars: a rift cell shows a blank
/// or the dim `'.'` in ascii, lights a block dot at most a fifth of the
/// way, and shows anything for fewer than 90 hashes in 1000.
pub proof fn lemma_rift_is_faint(sh: u32, depth: u32, scaled: usize, d: u32)
    ensures
        ({
            let s = spec_sky_cell(sh, depth, true, true, true, scaled);
            &&& spec_star_glyph(s, d) == ' ' || spec_star_glyph(s, d) == '.'
            &&& spec_star_level(s) <= 12
            &&& spec_star_glyph(s, d) != ' ' ==> sh % 1000 < 90
        }),
{
}

/// The two alphabets agree on dim and bright cells: a cell at most a fifth
/// bright shows a blank or `'.'` in ascii, and the brightest ascii glyph
/// `'*'` only shows where the block brightness is full.
pub proof fn lemma_dim_and_bright_agree(s: SkyStar, d: u32)
    requires
        star_valid(s),
    ensures
        spec_star_level(s) <= 12 ==> spec_star_glyph(s, d) == ' ' || spec_star_glyph(s, d) == '.',
        spec_star_glyph(s, d) == '*' ==> spec_star_level(s) == 60,
{
}

/// Field stars sit high on the block ramp, so a single dot lights up: every
/// field star is at least 0.7 bright (42 sixtieths), a higher tier is never
/// dimmer, and every star the sparse field shows is that bright.
pub proof fn lemma_field_stars_are_bright(
    t: u32,
    u: u32,
    sh: u32,
    depth: u32,
    core: bool,
    in_dust: bool,
    scaled: usize,
)
    requires
        t < 13,
        u < 13,
    ensures
        42 <= spec_star_level(SkyStar::Field(t)) <= 60,
        t <= u ==> spec_star_level(SkyStar::Field(t)) <= spec_star_level(SkyStar::Field(u)),
        spec_sky_cell(sh, depth, false, core, in_dust, scaled) != SkyStar::Blank ==> spec_star_level(
            spec_sky_cell(sh, depth, false, core, in_dust, scaled),
        ) >= 42,
{
}

} // verus!
