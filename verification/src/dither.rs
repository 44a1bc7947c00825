//! Ordered dithering of sub-cell samples into block glyphs.
//!
//! A block cell casts one ray per dot and lights the dot when the sample's
//! brightness exceeds the Bayer 8x8 threshold at that sub-cell. The lit
//! dots become a dot mask, and the mask becomes a glyph.

use vstd::prelude::*;

verus! {

/// Bayer 8x8 ordered dither ranks, row major: sub-cell `(x, y)` lights its
/// dot when its brightness exceeds `(rank + 0.5) / 64`.
pub const BAYER8: [u8; 64] = [
    0, 32, 8, 40, 2, 34, 10, 42, 48, 16, 56, 24, 50, 18, 58, 26,
    12, 44, 4, 36, 14, 46, 6, 38, 60, 28, 52, 20, 62, 30, 54, 22,
    3, 35, 11, 43, 1, 33, 9, 41, 51, 19, 59, 27, 49, 17, 57, 25,
    15, 47, 7, 39, 13, 45, 5, 37, 63, 31, 55, 23, 61, 29, 53, 21,
];

/// The sub-cell position each dither rank sits at.
pub open spec fn bayer_position() -> Seq<int> {
    seq![
        0, 36, 4, 32, 18, 54, 22, 50, 2, 38, 6, 34, 16, 52, 20, 48,
        9, 45, 13, 41, 27, 63, 31, 59, 11, 47, 15, 43, 25, 61, 29, 57,
        1, 37, 5, 33, 19, 55, 23, 51, 3, 39, 7, 35, 17, 53, 21, 49,
        8, 44, 12, 40, 26, 62, 30, 58, 10, 46, 14, 42, 24, 60, 28, 56,
    ]
}

/// Dither rank of sub-cell `(x, y)`; the pattern tiles every 8 sub-cells.
pub fn bayer_rank(x: usize, y: usize) -> (r: u8)
    ensures
        r == BAYER8@[(y % 8) * 8 + x % 8],
        r < 64,
{
    let yi = y & 7;
    let xi = x & 7;
    assert(yi == y % 8 && xi == x % 8) by (bit_vector)
        requires
            yi == y & 7,
            xi == x & 7,
    ;
    proof {
        lemma_bayer_ranks();
    }
    BAYER8[yi * 8 + xi]
}

/// Every rank is below 64 and sits at the position `bayer_position` names.
proof fn lemma_bayer_ranks()
    ensures
        forall|i: int|
            0 <= i < 64 ==> #[trigger] BAYER8@[i] < 64 && bayer_position()[BAYER8@[i] as int] == i,
{
    assert forall|i: int| 0 <= i < 64 implies #[trigger] BAYER8@[i] < 64 && bayer_position()[BAYER8@[i] as int] == i by {
        if i == 0 {
            assert(BAYER8@[0] == 0);
        } else if i == 1 {
            assert(BAYER8@[1] == 32);
        } else if i == 2 {
            assert(BAYER8@[2] == 8);
        } else if i == 3 {
            assert(BAYER8@[3] == 40);
        } else if i == 4 {
            assert(BAYER8@[4] == 2);
        } else if i == 5 {
            assert(BAYER8@[5] == 34);
        } else if i == 6 {
            assert(BAYER8@[6] == 10);
        } else if i == 7 {
            assert(BAYER8@[7] == 42);
        } else if i == 8 {
            assert(BAYER8@[8] == 48);
        } else if i == 9 {
            assert(BAYER8@[9] == 16);
        } else if i == 10 {
            assert(BAYER8@[10] == 56);
        } else if i == 11 {
            assert(BAYER8@[11] == 24);
        } else if i == 12 {
            assert(BAYER8@[12] == 50);
        } else if i == 13 {
            assert(BAYER8@[13] == 18);
        } else if i == 14 {
            assert(BAYER8@[14] == 58);
        } else if i == 15 {
            assert(BAYER8@[15] == 26);
        } else if i == 16 {
            assert(BAYER8@[16] == 12);
        } else if i == 17 {
            assert(BAYER8@[17] == 44);
        } else if i == 18 {
            assert(BAYER8@[18] == 4);
        } else if i == 19 {
            assert(BAYER8@[19] == 36);
        } else if i == 20 {
            assert(BAYER8@[20] == 14);
        } else if i == 21 {
            assert(BAYER8@[21] == 46);
        } else if i == 22 {
            assert(BAYER8@[22] == 6);
        } else if i == 23 {
            assert(BAYER8@[23] == 38);
        } else if i == 24 {
            assert(BAYER8@[24] == 60);
        } else if i == 25 {
            assert(BAYER8@[25] == 28);
        } else if i == 26 {
            assert(BAYER8@[26] == 52);
        } else if i == 27 {
            assert(BAYER8@[27] == 20);
        } else if i == 28 {
            assert(BAYER8@[28] == 62);
        } else if i == 29 {
            assert(BAYER8@[29] == 30);
        } else if i == 30 {
            assert(BAYER8@[30] == 54);
        } else if i == 31 {
            assert(BAYER8@[31] == 22);
        } else if i == 32 {
            assert(BAYER8@[32] == 3);
        } else if i == 33 {
            assert(BAYER8@[33] == 35);
        } else if i == 34 {
            assert(BAYER8@[34] == 11);
        } else if i == 35 {
            assert(BAYER8@[35] == 43);
        } else if i == 36 {
            assert(BAYER8@[36] == 1);
        } else if i == 37 {
            assert(BAYER8@[37] == 33);
        } else if i == 38 {
            assert(BAYER8@[38] == 9);
        } else if i == 39 {
            assert(BAYER8@[39] == 41);
        } else if i == 40 {
            assert(BAYER8@[40] == 51);
        } else if i == 41 {
            assert(BAYER8@[41] == 19);
        } else if i == 42 {
            assert(BAYER8@[42] == 59);
        } else if i == 43 {
            assert(BAYER8@[43] == 27);
        } else if i == 44 {
            assert(BAYER8@[44] == 49);
        } else if i == 45 {
            assert(BAYER8@[45] == 17);
        } else if i == 46 {
            assert(BAYER8@[46] == 57);
        } else if i == 47 {
            assert(BAYER8@[47] == 25);
        } else if i == 48 {
            assert(BAYER8@[48] == 15);
        } else if i == 49 {
            assert(BAYER8@[49] == 47);
        } else if i == 50 {
            assert(BAYER8@[50] == 7);
        } else if i == 51 {
            assert(BAYER8@[51] == 39);
        } else if i == 52 {
            assert(BAYER8@[52] == 13);
        } else if i == 53 {
            assert(BAYER8@[53] == 45);
        } else if i == 54 {
            assert(BAYER8@[54] == 5);
        } else if i == 55 {
            assert(BAYER8@[55] == 37);
        } else if i == 56 {
            assert(BAYER8@[56] == 63);
        } else if i == 57 {
            assert(BAYER8@[57] == 31);
        } else if i == 58 {
            assert(BAYER8@[58] == 55);
        } else if i == 59 {
            assert(BAYER8@[59] == 23);
        } else if i == 60 {
            assert(BAYER8@[60] == 61);
        } else if i == 61 {
            assert(BAYER8@[61] == 29);
        } else if i == 62 {
            assert(BAYER8@[62] == 53);
        } else if i == 63 {
            assert(BAYER8@[63] == 21);
        }
    }
}

/// The 64 thresholds of the Bayer matrix are 64 distinct ranks `0..64`:
/// every dither level is used exactly once per 8x8 tile.
pub proof fn lemma_bayer_is_permutation()
    ensures
        forall|i: int| 0 <= i < 64 ==> #[trigger] BAYER8@[i] < 64,
        forall|i: int, j: int| 0 <= i < 64 && 0 <= j < 64 && i != j ==> #[trigger] BAYER8@[i] != #[trigger] BAYER8@[j],
{
    lemma_bayer_ranks();
}

/// The dither pattern tiles: sub-cells 8 apart in either direction share
/// their rank.
pub proof fn lemma_bayer_tiles(x: nat, y: nat)
    ensures
        BAYER8@[(((y + 8) % 8) * 8 + (x + 8) % 8) as int] == BAYER8@[((y % 8) * 8 + x % 8) as int],
        BAYER8@[((y % 8) * 8 + (x + 8) % 8) as int] == BAYER8@[((y % 8) * 8 + x % 8) as int],
{
    assert((y + 8) % 8 == y % 8 && (x + 8) % 8 == x % 8);
}

/// Braille dot bit for sub-cell `(column, row)` in the 8-dot layout:
/// column 0 holds dots 1, 2, 3, 7 top to bottom, column 1 dots 4, 5, 6, 8.
pub const BRAILLE_BITS: [[u8; 4]; 2] = [[0x01, 0x02, 0x04, 0x40], [0x08, 0x10, 0x20, 0x80]];

/// Bit position of the dot at sub-cell `(ix, iy)`.
pub open spec fn spec_dot_shift(ix: int, iy: int) -> u8 {
    if ix == 0 {
        if iy == 3 {
            6
        } else {
            iy as u8
        }
    } else {
        if iy == 3 {
            7
        } else {
            (iy + 3) as u8
        }
    }
}

/// Sub-cell `(ix, iy)` whose dot sits at bit `k`.
pub open spec fn spec_dot_of_bit(k: int) -> (int, int) {
    if k <= 2 {
        (0, k)
    } else if k <= 5 {
        (1, k - 3)
    } else if k == 6 {
        (0, 3)
    } else {
        (1, 3)
    }
}

/// Whether bit `k` of a cell's dot mask is set: its sub-cell is inside the
/// `sx` by `sy` grid and its sample is lit (`lit` is row major).
pub open spec fn dot_lit(lit: Seq<bool>, sx: int, sy: int, k: int) -> bool {
    let (ix, iy) = spec_dot_of_bit(k);
    ix < sx && iy < sy && lit[iy * sx + ix]
}

/// Bit `k` of `m`.
pub open spec fn bit_set(m: u8, k: u8) -> bool {
    (m >> k) & 1u8 == 1u8
}

/// Braille dot bit of sub-cell `(ix, iy)`.
pub fn dot_bit(ix: usize, iy: usize) -> (b: u8)
    requires
        ix < 2,
        iy < 4,
    ensures
        b == 1u8 << spec_dot_shift(ix as int, iy as int),
{
    let b = BRAILLE_BITS[ix][iy];
    assert(1u8 << 0u8 == 1u8 && 1u8 << 1u8 == 2u8 && 1u8 << 2u8 == 4u8 && 1u8 << 3u8 == 8u8)
        by (bit_vector);
    assert(1u8 << 4u8 == 16u8 && 1u8 << 5u8 == 32u8 && 1u8 << 6u8 == 64u8 && 1u8 << 7u8 == 128u8)
        by (bit_vector);
    b
}

/// Setting bit `s` of `m` changes bit `s` only.
proof fn lemma_set_bit(m: u8, s: u8, k: u8)
    requires
        s < 8,
        k < 8,
    ensures
        bit_set(m | (1u8 << s), k) == (k == s || bit_set(m, k)),
{
    assert(bit_set(m | (1u8 << s), k) == (k == s || bit_set(m, k))) by (bit_vector)
        requires
            s < 8,
            k < 8,
    ;
}

/// The dots, in placement order, already placed when `(ix, iy)` comes up.
pub open spec fn dot_placed(ix: int, iy: int, cx: int, cy: int) -> bool {
    iy < cy || (iy == cy && ix < cx)
}

/// Dot mask of a cell whose `sx` by `sy` sub-cell samples are `lit`, row
/// major: bit `spec_dot_shift(ix, iy)` is set exactly for the lit samples.
pub fn dot_mask(lit: &[bool], sx: usize, sy: usize) -> (m: u8)
    requires
        sx <= 2,
        sy <= 4,
        lit@.len() == sx * sy,
    ensures
        forall|k: u8| k < 8 ==> #[trigger] bit_set(m, k) == dot_lit(lit@, sx as int, sy as int, k as int),
{
    let mut mask: u8 = 0;
    assert forall|k: u8| k < 8 implies !#[trigger] bit_set(0u8, k) by {
        assert(!bit_set(0u8, k)) by (bit_vector);
    }
    let mut iy: usize = 0;
    while iy < sy
        invariant
            sx <= 2,
            sy <= 4,
            lit@.len() == sx * sy,
            iy <= sy,
            forall|k: u8|
                k < 8 ==> #[trigger] bit_set(mask, k) == ({
                    let (dx, dy) = spec_dot_of_bit(k as int);
                    dx < sx && dy < iy && lit@[dy * sx + dx]
                }),
        decreases sy - iy,
    {
        let mut ix: usize = 0;
        while ix < sx
            invariant
                sx <= 2,
                sy <= 4,
                lit@.len() == sx * sy,
                iy < sy,
                ix <= sx,
                forall|k: u8|
                    k < 8 ==> #[trigger] bit_set(mask, k) == ({
                        let (dx, dy) = spec_dot_of_bit(k as int);
                        dx < sx && dot_placed(dx, dy, ix as int, iy as int) && lit@[dy * sx + dx]
                    }),
            decreases sx - ix,
        {
            assert(iy * sx + ix < sx * sy) by (nonlinear_arith)
                requires
                    iy < sy,
                    ix < sx,
            ;
            let i = iy * sx + ix;
            let ghost before = mask;
            let ghost s = spec_dot_shift(ix as int, iy as int);
            if lit[i] {
                let b = dot_bit(ix, iy);
                mask = mask | b;
                proof {
                    assert forall|k: u8| k < 8 implies #[trigger] bit_set(mask, k) == (k == s
                        || bit_set(before, k)) by {
                        lemma_set_bit(before, s, k);
                    }
                }
            }
            assert forall|k: u8| k < 8 implies #[trigger] bit_set(mask, k) == ({
                let (dx, dy) = spec_dot_of_bit(k as int);
                dx < sx && dot_placed(dx, dy, ix as int + 1, iy as int) && lit@[dy * sx + dx]
            }) by {
                let (dx, dy) = spec_dot_of_bit(k as int);
                if k == s {
                    assert(dx == ix && dy == iy);
                } else {
                    assert(!(dx == ix && dy == iy));
                }
            }
            ix = ix + 1;
        }
        assert forall|k: u8| k < 8 implies #[trigger] bit_set(mask, k) == ({
            let (dx, dy) = spec_dot_of_bit(k as int);
            dx < sx && dy < iy + 1 && lit@[dy * sx + dx]
        }) by {
            let (dx, dy) = spec_dot_of_bit(k as int);
            if dy == iy && dx >= sx {
            }
        }
        iy = iy + 1;
    }
    mask
}

/// The dot mask of a fully lit cell sets every dot of its grid: all eight
/// for braille, the two low bits for half blocks.
pub proof fn lemma_full_cells(m: u8, sx: int, sy: int, lit: Seq<bool>)
    requires
        (sx == 2 && sy == 4) || (sx == 1 && sy == 2),
        lit.len() == sx * sy,
        forall|i: int| 0 <= i < lit.len() ==> lit[i],
        forall|k: u8| k < 8 ==> #[trigger] bit_set(m, k) == dot_lit(lit, sx, sy, k as int),
    ensures
        sx == 2 ==> m == 0xffu8,
        sx == 1 ==> m == 3u8,
{
    if sx == 2 {
        assert forall|k: u8| k < 8 implies #[trigger] bit_set(m, k) by {
            let (dx, dy) = spec_dot_of_bit(k as int);
            assert(0 <= dy * 2 + dx < 8) by (nonlinear_arith)
                requires
                    0 <= dx < 2,
                    0 <= dy < 4,
            ;
        }
        assert(bit_set(m, 0) && bit_set(m, 1) && bit_set(m, 2) && bit_set(m, 3));
        assert(bit_set(m, 4) && bit_set(m, 5) && bit_set(m, 6) && bit_set(m, 7));
        assert(m == 0xffu8) by (bit_vector)
            requires
                (m >> 0u8) & 1u8 == 1u8 && (m >> 1u8) & 1u8 == 1u8 && (m >> 2u8) & 1u8 == 1u8 && (m
                    >> 3u8) & 1u8 == 1u8,
                (m >> 4u8) & 1u8 == 1u8 && (m >> 5u8) & 1u8 == 1u8 && (m >> 6u8) & 1u8 == 1u8 && (m
                    >> 7u8) & 1u8 == 1u8,
        ;
    } else {
        assert(bit_set(m, 0) && bit_set(m, 1));
        assert(!bit_set(m, 2) && !bit_set(m, 3) && !bit_set(m, 4) && !bit_set(m, 5));
        assert(!bit_set(m, 6) && !bit_set(m, 7));
        assert(m == 3u8) by (bit_vector)
            requires
                (m >> 0u8) & 1u8 == 1u8 && (m >> 1u8) & 1u8 == 1u8 && (m >> 2u8) & 1u8 != 1u8 && (m
                    >> 3u8) & 1u8 != 1u8,
                (m >> 4u8) & 1u8 != 1u8 && (m >> 5u8) & 1u8 != 1u8 && (m >> 6u8) & 1u8 != 1u8 && (m
                    >> 7u8) & 1u8 != 1u8,
        ;
    }
}

} // verus!
