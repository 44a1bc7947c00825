//! Ascii images: line splitting, palette lookup and palette indexing.
//!
//! An ascii image is split into lines as `str::lines` does. Its texels are
//! stored in library texture space: row `y` holds line `y` read right to
//! left (longitude runs west), padded with level 0 up to the widest line.
//! Glyphs missing from the palette are appended in the order the rows are
//! walked, so any image renders exactly as written.

use vstd::prelude::*;

use crate::error::TextureError;
use crate::text::chars_of;

verus! {

// ---------------------------------------------------------------------
// Palette lookup
// ---------------------------------------------------------------------

/// Index of the first occurrence of `c` in `p`, or -1 when absent.
pub open spec fn first_index(p: Seq<char>, c: char) -> int
    decreases p.len(),
{
    if p.len() == 0 {
        -1
    } else {
        let f = first_index(p.drop_last(), c);
        if f >= 0 {
            f
        } else if p.last() == c {
            p.len() - 1
        } else {
            -1
        }
    }
}

/// `first_index` is the position of the first occurrence.
pub proof fn lemma_first_index(p: Seq<char>, c: char)
    ensures
        -1 <= first_index(p, c) < p.len(),
        first_index(p, c) == -1 <==> !p.contains(c),
        first_index(p, c) >= 0 ==> p[first_index(p, c)] == c,
        forall|k: int| 0 <= k < first_index(p, c) ==> p[k] != c,
        first_index(p, c) == -1 ==> forall|k: int| 0 <= k < p.len() ==> p[k] != c,
    decreases p.len(),
{
    if p.len() > 0 {
        let q = p.drop_last();
        lemma_first_index(q, c);
        if first_index(q, c) == -1 && p.last() != c {
            assert forall|k: int| 0 <= k < p.len() implies p[k] != c by {
                if k < q.len() {
                    assert(q[k] == p[k]);
                }
            }
        }
        assert forall|k: int| 0 <= k < q.len() implies q[k] == p[k] by {}
        if first_index(q, c) >= 0 {
            assert(q.contains(c));
            assert(p[first_index(q, c)] == q[first_index(q, c)]);
        }
        if first_index(q, c) == -1 && p.last() == c {
            assert(p[p.len() - 1] == c);
        }
    }
}

/// Any position of a first occurrence is `first_index`.
pub proof fn lemma_first_index_unique(p: Seq<char>, c: char, g: int)
    requires
        0 <= g < p.len(),
        p[g] == c,
        forall|k: int| 0 <= k < g ==> p[k] != c,
    ensures
        first_index(p, c) == g,
{
    lemma_first_index(p, c);
    assert(p.contains(c));
}

/// Growing a palette keeps the index of a glyph it already holds.
pub proof fn lemma_first_index_prefix(p: Seq<char>, q: Seq<char>, c: char)
    requires
        p.is_prefix_of(q),
        p.contains(c),
    ensures
        first_index(q, c) == first_index(p, c),
{
    lemma_first_index(p, c);
    let f = first_index(p, c);
    assert(q[f] == p[f]);
    assert forall|k: int| 0 <= k < f implies q[k] != c by {
        assert(q[k] == p[k]);
    }
    lemma_first_index_unique(q, c, f);
}

/// Get index of the given character on the palette.
pub fn find_index(target: char, palette: &[char]) -> (r: Option<usize>)
    ensures
        match r {
            Some(i) => i as int == first_index(palette@, target),
            None => first_index(palette@, target) == -1,
        },
{
    proof {
        lemma_first_index(palette@, target);
    }
    let mut i: usize = 0;
    while i < palette.len()
        invariant
            i <= palette@.len(),
            forall|k: int| 0 <= k < i ==> palette@[k] != target,
        decreases palette@.len() - i,
    {
        if palette[i] == target {
            proof {
                lemma_first_index_unique(palette@, target, i as int);
            }
            return Some(i);
        }
        i = i + 1;
    }
    proof {
        if palette@.contains(target) {
            let k = choose|k: int| 0 <= k < palette@.len() && palette@[k] == target;
            assert(palette@[k] != target);
        }
    }
    None
}

// ---------------------------------------------------------------------
// Lines
// ---------------------------------------------------------------------

/// A line without the `'\r'` of a `"\r\n"` line ending.
pub open spec fn strip_cr(line: Seq<char>) -> Seq<char> {
    if line.len() > 0 && line.last() == '\r' {
        line.drop_last()
    } else {
        line
    }
}

/// Lines of `s`, given the text `cur` already read on the current line.
pub open spec fn lines_from(s: Seq<char>, cur: Seq<char>) -> Seq<Seq<char>>
    decreases s.len(),
{
    if s.len() == 0 {
        if cur.len() == 0 {
            seq![]
        } else {
            seq![cur]
        }
    } else if s[0] == '\n' {
        seq![strip_cr(cur)] + lines_from(s.drop_first(), seq![])
    } else {
        lines_from(s.drop_first(), cur.push(s[0]))
    }
}

/// Lines of a text as `str::lines` yields them: split at `'\n'`, a `'\r'`
/// just before a `'\n'` dropped, and no empty line after a final `'\n'`.
pub open spec fn spec_lines(s: Seq<char>) -> Seq<Seq<char>> {
    lines_from(s, seq![])
}

/// The character rows of a vector of lines.
pub open spec fn rows_view(v: Seq<Vec<char>>) -> Seq<Seq<char>> {
    v.map_values(|l: Vec<char>| l@)
}

/// Splits a text into lines, as `str::lines` does.
pub fn split_lines(text: &[char]) -> (lines: Vec<Vec<char>>)
    ensures
        rows_view(lines@) == spec_lines(text@),
{
    let mut lines: Vec<Vec<char>> = Vec::new();
    let mut cur: Vec<char> = Vec::new();
    let n = text.len();
    let mut i: usize = 0;
    assert(text@.skip(0) =~= text@);
    while i < n
        invariant
            n == text@.len(),
            i <= n,
            rows_view(lines@) + lines_from(text@.skip(i as int), cur@) == spec_lines(text@),
        decreases n - i,
    {
        let c = text[i];
        let ghost rest = text@.skip(i as int);
        assert(rest[0] == c);
        assert(rest.drop_first() =~= text@.skip(i + 1));
        if c == '\n' {
            let ghost before = cur@;
            let len = cur.len();
            if len > 0 && cur[len - 1] == '\r' {
                cur.pop();
            }
            assert(cur@ =~= strip_cr(before));
            let ghost old_lines = rows_view(lines@);
            let done = cur;
            cur = Vec::new();
            lines.push(done);
            assert(rows_view(lines@) =~= old_lines.push(strip_cr(before)));
            assert(old_lines + (seq![strip_cr(before)] + lines_from(text@.skip(i + 1), seq![]))
                =~= old_lines.push(strip_cr(before)) + lines_from(text@.skip(i + 1), cur@));
        } else {
            cur.push(c);
        }
        i = i + 1;
    }
    assert(text@.skip(n as int) =~= seq![]);
    if cur.len() > 0 {
        let ghost old_lines = rows_view(lines@);
        let ghost last = cur@;
        lines.push(cur);
        assert(rows_view(lines@) =~= old_lines + seq![last]);
    } else {
        assert(rows_view(lines@) + seq![] =~= rows_view(lines@));
    }
    lines
}

// ---------------------------------------------------------------------
// Image shape and palette growth
// ---------------------------------------------------------------------

/// Length of the widest line.
pub open spec fn max_len(ls: Seq<Seq<char>>) -> nat
    decreases ls.len(),
{
    if ls.len() == 0 {
        0
    } else {
        let m = max_len(ls.drop_last());
        if ls.last().len() > m {
            ls.last().len()
        } else {
            m
        }
    }
}

/// Every line fits in the widest line's width.
pub proof fn lemma_max_len(ls: Seq<Seq<char>>)
    ensures
        forall|y: int| 0 <= y < ls.len() ==> ls[y].len() <= max_len(ls),
        ls.len() > 0 ==> exists|y: int| 0 <= y < ls.len() && ls[y].len() == max_len(ls),
    decreases ls.len(),
{
    if ls.len() > 0 {
        let q = ls.drop_last();
        lemma_max_len(q);
        assert forall|y: int| 0 <= y < ls.len() implies ls[y].len() <= max_len(ls) by {
            if y < q.len() {
                assert(q[y] == ls[y]);
            }
        }
        if ls.last().len() > max_len(q) || q.len() == 0 {
            assert(ls[ls.len() - 1].len() == max_len(ls));
        } else {
            let y = choose|y: int| 0 <= y < q.len() && q[y].len() == max_len(q);
            assert(ls[y] == q[y]);
        }
    }
}

/// The glyphs of an image in the order they are indexed: row by row, each
/// row read right to left.
pub open spec fn traversal(ls: Seq<Seq<char>>) -> Seq<char>
    decreases ls.len(),
{
    if ls.len() == 0 {
        seq![]
    } else {
        traversal(ls.drop_last()) + ls.last().reverse()
    }
}

/// The palette after indexing the glyphs `t`: each glyph not yet present
/// is appended, in first-seen order.
pub open spec fn extend_palette(p: Seq<char>, t: Seq<char>) -> Seq<char>
    decreases t.len(),
{
    if t.len() == 0 {
        p
    } else {
        let q = extend_palette(p, t.drop_last());
        if q.contains(t.last()) {
            q
        } else {
            q.push(t.last())
        }
    }
}

/// Indexing `t` keeps every level within a byte: appending stops at 255
/// glyphs, and each glyph indexed sits below index 256.
pub open spec fn palette_fits(p: Seq<char>, t: Seq<char>) -> bool {
    let q = extend_palette(p, t);
    &&& q.len() == p.len() || q.len() <= 255
    &&& forall|i: int| 0 <= i < t.len() ==> first_index(q, #[trigger] t[i]) < 256
}

/// Level row of one line: texel `x` holds the palette index of the glyph
/// `x` places from the line's end, and lines shorter than the image are
/// padded with level 0.
pub open spec fn levels_row(p: Seq<char>, line: Seq<char>, cols: nat) -> Seq<u8> {
    Seq::new(
        cols,
        |x: int|
            if x < line.len() {
                first_index(p, line[line.len() - 1 - x]) as u8
            } else {
                0u8
            },
    )
}

/// Levels of a whole image, row major, first row on top.
pub open spec fn image_levels(p: Seq<char>, ls: Seq<Seq<char>>, cols: nat) -> Seq<u8>
    decreases ls.len(),
{
    if ls.len() == 0 {
        seq![]
    } else {
        image_levels(p, ls.drop_last(), cols) + levels_row(p, ls.last(), cols)
    }
}

/// Size of an ascii image as `(columns, rows)`.
pub open spec fn image_size(s: Seq<char>) -> (nat, nat) {
    (max_len(spec_lines(s)), spec_lines(s).len())
}

/// Palette after indexing the ascii image `s` with palette `p`.
pub open spec fn image_palette(p: Seq<char>, s: Seq<char>) -> Seq<char> {
    extend_palette(p, traversal(spec_lines(s)))
}

/// Texel levels of the ascii image `s` indexed with palette `p`.
pub open spec fn spec_image_levels(p: Seq<char>, s: Seq<char>) -> Seq<u8> {
    image_levels(image_palette(p, s), spec_lines(s), image_size(s).0)
}

/// Whether the ascii image `s` has a cell grid that fits in memory.
pub open spec fn image_fits_memory(s: Seq<char>) -> bool {
    &&& image_size(s).0 <= usize::MAX
    &&& image_size(s).1 <= usize::MAX
    &&& image_size(s).0 * image_size(s).1 <= usize::MAX
}

/// Whether indexing the ascii image `s` with palette `p` succeeds.
pub open spec fn image_indexable(p: Seq<char>, s: Seq<char>) -> bool {
    image_fits_memory(s) && palette_fits(p, traversal(spec_lines(s)))
}

/// The starting palette is kept as a prefix of the grown one.
pub proof fn lemma_extend_palette_prefix(p: Seq<char>, t: Seq<char>)
    ensures
        p.is_prefix_of(extend_palette(p, t)),
    decreases t.len(),
{
    if t.len() > 0 {
        lemma_extend_palette_prefix(p, t.drop_last());
    }
}

/// Indexing more glyphs only appends to the palette.
pub proof fn lemma_extend_palette_take(p: Seq<char>, t: Seq<char>, k: int)
    requires
        0 <= k <= t.len(),
    ensures
        extend_palette(p, t.take(k)).is_prefix_of(extend_palette(p, t)),
    decreases t.len() - k,
{
    if k == t.len() {
        assert(t.take(k) =~= t);
    } else {
        lemma_extend_palette_take(p, t, k + 1);
        assert(t.take(k + 1).drop_last() =~= t.take(k));
    }
}

/// Every glyph indexed is in the grown palette.
pub proof fn lemma_extend_palette_contains(p: Seq<char>, t: Seq<char>, i: int)
    requires
        0 <= i < t.len(),
    ensures
        extend_palette(p, t).contains(t[i]),
    decreases t.len(),
{
    let q = extend_palette(p, t.drop_last());
    if i == t.len() - 1 {
        if q.contains(t.last()) {
            let j = choose|j: int| 0 <= j < q.len() && q[j] == t.last();
            assert(extend_palette(p, t)[j] == t[i]);
        } else {
            assert(extend_palette(p, t)[q.len() as int] == t[i]);
        }
    } else {
        lemma_extend_palette_contains(p, t.drop_last(), i);
        assert(t.drop_last()[i] == t[i]);
        let j = choose|j: int| 0 <= j < q.len() && q[j] == t[i];
        assert(extend_palette(p, t)[j] == t[i]);
    }
}

/// The indexing order of the first `y` lines is a prefix of the whole.
pub proof fn lemma_traversal_take(ls: Seq<Seq<char>>, y: int)
    requires
        0 <= y <= ls.len(),
    ensures
        traversal(ls.take(y)).is_prefix_of(traversal(ls)),
    decreases ls.len(),
{
    if y == ls.len() {
        assert(ls.take(y) =~= ls);
    } else {
        lemma_traversal_take(ls.drop_last(), y);
        assert(ls.drop_last().take(y) =~= ls.take(y));
    }
}

/// Adding one line to the indexing order appends it read right to left.
pub proof fn lemma_traversal_step(ls: Seq<Seq<char>>, y: int)
    requires
        0 <= y < ls.len(),
    ensures
        traversal(ls.take(y + 1)) == traversal(ls.take(y)) + ls[y].reverse(),
{
    assert(ls.take(y + 1).drop_last() =~= ls.take(y));
}

/// Adding one line to an image appends its level row.
pub proof fn lemma_image_levels_step(p: Seq<char>, ls: Seq<Seq<char>>, y: int, cols: nat)
    requires
        0 <= y < ls.len(),
    ensures
        image_levels(p, ls.take(y + 1), cols) == image_levels(p, ls.take(y), cols)
            + levels_row(p, ls[y], cols),
{
    assert(ls.take(y + 1).drop_last() =~= ls.take(y));
}

/// The widest of the first lines, one line at a time.
pub proof fn lemma_max_len_step(ls: Seq<Seq<char>>, y: int)
    requires
        0 <= y < ls.len(),
    ensures
        max_len(ls.take(y + 1)) == if ls[y].len() > max_len(ls.take(y)) {
            ls[y].len()
        } else {
            max_len(ls.take(y))
        },
{
    assert(ls.take(y + 1).drop_last() =~= ls.take(y));
}

/// Width of the widest line.
fn max_width(lines: &Vec<Vec<char>>) -> (w: usize)
    ensures
        w == max_len(rows_view(lines@)),
{
    let ghost ls = rows_view(lines@);
    let mut w: usize = 0;
    let mut y: usize = 0;
    assert(ls.take(0) =~= seq![]);
    while y < lines.len()
        invariant
            ls == rows_view(lines@),
            y <= lines@.len(),
            w == max_len(ls.take(y as int)),
        decreases lines@.len() - y,
    {
        proof {
            lemma_max_len_step(ls, y as int);
        }
        assert(ls[y as int] == lines@[y as int]@);
        if lines[y].len() > w {
            w = lines[y].len();
        }
        y = y + 1;
    }
    assert(ls.take(y as int) =~= ls);
    w
}

/// Indexes an ascii image into palette levels, appending unknown glyphs to
/// the palette. Fails, leaving the palette as it was, when the image's cell
/// grid does not fit in memory, when the palette would outgrow 255 glyphs,
/// or when a glyph of the image sits at a palette index of 256 or more,
/// which a level byte cannot hold.
pub fn index_image(image: &str, palette: &mut Vec<char>) -> (r: Result<
    (Vec<u8>, (usize, usize)),
    TextureError,
>)
    ensures
        match r {
            Ok((levels, size)) => {
                &&& image_indexable(old(palette)@, image@)
                &&& size.0 == image_size(image@).0
                &&& size.1 == image_size(image@).1
                &&& levels@ == spec_image_levels(old(palette)@, image@)
                &&& final(palette)@ == image_palette(old(palette)@, image@)
            },
            Err(e) => {
                &&& final(palette)@ == old(palette)@
                &&& !image_indexable(old(palette)@, image@)
                &&& (e == TextureError::ImageTooLarge <==> !image_fits_memory(image@))
                &&& (e == TextureError::PaletteOverflow <==> image_fits_memory(image@))
            },
        },
{
    let text = chars_of(image);
    let lines = split_lines(text.as_slice());
    let ghost ls = rows_view(lines@);
    let ghost p0 = palette@;
    let ghost t = traversal(ls);
    let ghost pf = extend_palette(p0, t);
    let rows = lines.len();
    let cols = max_width(&lines);
    let total = match cols.checked_mul(rows) {
        Some(n) => n,
        None => {
            return Err(TextureError::ImageTooLarge);
        },
    };
    let mut pal: Vec<char> = palette.clone();
    let mut out: Vec<u8> = Vec::with_capacity(total);
    let ghost mut k: int = 0;
    proof {
        lemma_extend_palette_prefix(p0, t);
        assert(ls.take(0) =~= seq![]);
        assert(t.take(0) =~= seq![]);
    }
    let mut y: usize = 0;
    while y < rows
        invariant
            ls == rows_view(lines@),
            ls == spec_lines(image@),
            palette@ == p0,
            cols * rows <= usize::MAX,
            rows == ls.len(),
            cols == max_len(ls),
            t == traversal(ls),
            pf == extend_palette(p0, t),
            y <= rows,
            k == traversal(ls.take(y as int)).len(),
            traversal(ls.take(y as int)).is_prefix_of(t),
            pal@ == extend_palette(p0, t.take(k)),
            pal@.len() == p0.len() || pal@.len() <= 255,
            forall|i: int| 0 <= i < k ==> first_index(pf, #[trigger] t[i]) < 256,
            out@ == image_levels(pf, ls.take(y as int), cols as nat),
        decreases rows - y,
    {
        let line = &lines[y];
        let n = line.len();
        assert(ls[y as int] == line@);
        proof {
            lemma_max_len(ls);
            lemma_traversal_step(ls, y as int);
            lemma_traversal_take(ls, y as int + 1);
        }
        let ghost row = levels_row(pf, line@, cols as nat);
        let ghost k0 = k;
        let ghost before = out@;
        let mut x: usize = 0;
        while x < cols
            invariant
                ls == rows_view(lines@),
                ls == spec_lines(image@),
                palette@ == p0,
                cols * rows <= usize::MAX,
                cols == max_len(ls),
                line@ == ls[y as int],
                n == line@.len(),
                n <= cols,
                y < rows,
                rows == ls.len(),
                t == traversal(ls),
                pf == extend_palette(p0, t),
                row == levels_row(pf, line@, cols as nat),
                k0 == traversal(ls.take(y as int)).len(),
                traversal(ls.take(y as int + 1)) == traversal(ls.take(y as int)) + line@.reverse(),
                traversal(ls.take(y as int + 1)).is_prefix_of(t),
                x <= cols,
                k == k0 + if x < n { x as int } else { n as int },
                pal@ == extend_palette(p0, t.take(k)),
                pal@.len() == p0.len() || pal@.len() <= 255,
                forall|i: int| 0 <= i < k ==> first_index(pf, #[trigger] t[i]) < 256,
                out@ == before + row.take(x as int),
            decreases cols - x,
        {
            let ghost pal_before = pal@;
            if x < n {
                let c = line[n - 1 - x];
                assert(t[k] == c) by {
                    assert(traversal(ls.take(y as int + 1))[k] == t[k]);
                    assert(line@.reverse()[x as int] == c);
                }
                assert(t.take(k + 1).drop_last() =~= t.take(k));
                let level: u8 = match find_index(c, pal.as_slice()) {
                    Some(i) => {
                        proof {
                            lemma_first_index(pal@, c);
                        }
                        if i >= 256 {
                            proof {
                                lemma_extend_palette_take(p0, t, k);
                                assert(pal@.contains(c)) by {
                                    assert(pal@[i as int] == c);
                                }
                                lemma_first_index_prefix(pal@, pf, c);
                                assert(first_index(pf, t[k]) >= 256);
                                assert(!palette_fits(p0, t));
                            }
                            return Err(TextureError::PaletteOverflow);
                        }
                        i as u8
                    },
                    None => {
                        proof {
                            lemma_first_index(pal@, c);
                        }
                        if pal.len() >= 255 {
                            proof {
                                lemma_extend_palette_take(p0, t, k + 1);
                                lemma_extend_palette_prefix(p0, t.take(k));
                                assert(pal@.push(c).is_prefix_of(pf));
                                assert(pf.len() >= 256);
                                assert(p0.len() <= pal@.len());
                                assert(!palette_fits(p0, t));
                            }
                            return Err(TextureError::PaletteOverflow);
                        }
                        let len = pal.len();
                        pal.push(c);
                        proof {
                            assert(pal@[len as int] == c);
                            assert forall|j: int| 0 <= j < len implies pal@[j] != c by {
                                assert(pal@[j] == pal_before[j]);
                            }
                            lemma_first_index_unique(pal@, c, len as int);
                        }
                        len as u8
                    },
                };
                proof {
                    k = k + 1;
                    lemma_first_index(pal@, c);
                    assert(pal@.contains(c)) by {
                        assert(pal@[first_index(pal@, c)] == c);
                    }
                    lemma_extend_palette_take(p0, t, k);
                    lemma_first_index_prefix(pal@, pf, c);
                    assert(first_index(pf, t[k - 1]) < 256);
                    assert(row[x as int] == level);
                }
                out.push(level);
            } else {
                proof {
                    assert(row[x as int] == 0u8);
                }
                out.push(0u8);
            }
            assert(out@ =~= before + row.take(x as int + 1));
            x = x + 1;
        }
        proof {
            assert(row.take(cols as int) =~= row);
            lemma_image_levels_step(pf, ls, y as int, cols as nat);
            assert(k == traversal(ls.take(y as int + 1)).len());
        }
        y = y + 1;
    }
    proof {
        assert(ls.take(rows as int) =~= ls);
        assert(t.take(k) =~= t);
    }
    *palette = pal;
    Ok((out, (cols, rows)))
}

/// An image has one level per cell of its grid.
pub proof fn lemma_image_levels_len(p: Seq<char>, ls: Seq<Seq<char>>, cols: nat)
    ensures
        image_levels(p, ls, cols).len() == ls.len() * cols,
    decreases ls.len(),
{
    if ls.len() > 0 {
        lemma_image_levels_len(p, ls.drop_last(), cols);
        let n = ls.len() as int;
        assert((n - 1) * cols + cols == n * cols) by (nonlinear_arith);
    }
}

/// Texel `(x, y)` of an image is texel `x` of row `y`'s level row.
pub proof fn lemma_image_levels_index(p: Seq<char>, ls: Seq<Seq<char>>, cols: nat, y: int, x: int)
    requires
        0 <= y < ls.len(),
        0 <= x < cols,
    ensures
        image_levels(p, ls, cols)[y * cols + x] == levels_row(p, ls[y], cols)[x],
    decreases ls.len(),
{
    let q = ls.drop_last();
    lemma_image_levels_len(p, q, cols);
    let n = ls.len() as int;
    if y == n - 1 {
        assert(y * cols + x == (n - 1) * cols + x);
    } else {
        lemma_image_levels_index(p, q, cols, y, x);
        assert(y * cols + x < (n - 1) * cols) by (nonlinear_arith)
            requires
                0 <= y < n - 1,
                0 <= x < cols,
        ;
        assert(q[y] == ls[y]);
    }
}

/// An ascii image renders exactly as written: texel `(x, y)` of the
/// indexed image names, through the grown palette, the glyph `x` places
/// from the end of line `y`; texels past a short line's end are level 0.
pub proof fn lemma_ascii_image_renders_as_written(p: Seq<char>, s: Seq<char>, y: int, x: int)
    requires
        image_indexable(p, s),
        0 <= y < image_size(s).1,
        0 <= x < image_size(s).0,
    ensures
        ({
            let ls = spec_lines(s);
            let cols = image_size(s).0;
            let level = spec_image_levels(p, s)[y * cols + x];
            &&& spec_image_levels(p, s).len() == image_size(s).0 * image_size(s).1
            &&& x < ls[y].len() ==> image_palette(p, s)[level as int] == ls[y][ls[y].len() - 1 - x]
            &&& x >= ls[y].len() ==> level == 0
        }),
{
    let ls = spec_lines(s);
    let cols = image_size(s).0;
    let t = traversal(ls);
    let pf = image_palette(p, s);
    lemma_image_levels_len(pf, ls, cols);
    lemma_image_levels_index(pf, ls, cols, y, x);
    if x < ls[y].len() {
        let c = ls[y][ls[y].len() - 1 - x];
        lemma_traversal_step(ls, y);
        lemma_traversal_take(ls, y + 1);
        let k0 = traversal(ls.take(y)).len() as int;
        assert(traversal(ls.take(y + 1))[k0 + x] == c);
        assert(t[k0 + x] == c);
        assert(first_index(pf, t[k0 + x]) < 256);
        lemma_extend_palette_contains(p, t, k0 + x);
        lemma_first_index(pf, c);
        let f = first_index(pf, c);
        assert(pf[f] == c);
    }
}

} // verus!
