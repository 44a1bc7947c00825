//! The canvas a globe is rendered onto: one glyph per terminal cell.

use vstd::prelude::*;

use crate::ramp::{fade, spec_fade};

verus! {

/// Canvas that will be used to render the globe onto.
///
/// One glyph per terminal cell, row major: cell `(x, y)` lives at
/// `y * cols + x`. Storage is exactly the cell grid.
pub struct Canvas {
    /// Cell glyphs, row major.
    pub matrix: Vec<char>,
    /// Size in characters as `(columns, rows)`.
    pub size: (usize, usize),
    /// Approximate terminal cell size in device pixels. Only the aspect
    /// ratio matters: it keeps the globe circular on non-square cells.
    pub char_pix: (usize, usize),
}

/// A blank grid of `n` cells.
pub open spec fn blank(n: nat) -> Seq<char> {
    Seq::new(n, |i: int| ' ')
}

impl Canvas {
    /// Canvas size in characters as `(columns, rows)`.
    pub open spec fn dims(&self) -> (usize, usize) {
        self.size
    }

    /// The cell glyphs, row major.
    pub open spec fn cells(&self) -> Seq<char> {
        self.matrix@
    }

    /// The cell size in device pixels.
    pub open spec fn cell_px(&self) -> (usize, usize) {
        self.char_pix
    }

    /// The cell grid holds exactly `columns * rows` glyphs.
    pub open spec fn wf(&self) -> bool {
        self.cells().len() == self.dims().0 * self.dims().1
    }

    /// Creates a blank canvas `cols` by `rows` characters; cells are 4x8
    /// device pixels unless `cell_px` says otherwise.
    pub fn new(cols: u16, rows: u16, cell_px: Option<(usize, usize)>) -> (c: Canvas)
        ensures
            c.dims() == (cols as usize, rows as usize),
            c.wf(),
            c.cells() == blank(cols as nat * rows as nat),
            c.cell_px() == match cell_px {
                Some(px) => px,
                None => (4usize, 8usize),
            },
    {
        let (w, h) = (cols as usize, rows as usize);
        assert(w * h <= 65535 * 65535) by (nonlinear_arith)
            requires
                w <= 65535,
                h <= 65535,
        ;
        let n = w * h;
        let mut matrix: Vec<char> = Vec::with_capacity(n);
        let mut i: usize = 0;
        while i < n
            invariant
                i <= n,
                matrix@ == blank(i as nat),
            decreases n - i,
        {
            matrix.push(' ');
            i = i + 1;
            assert(matrix@ =~= blank(i as nat));
        }
        let char_pix = match cell_px {
            Some(px) => px,
            None => (4, 8),
        };
        Canvas { matrix, size: (w, h), char_pix }
    }

    /// Canvas size in characters.
    pub fn get_size(&self) -> (r: (usize, usize))
        ensures
            r == self.dims(),
    {
        self.size
    }

    /// One row of glyphs: the cells `y * cols .. (y + 1) * cols`. On a
    /// well-formed canvas every row `y < rows` qualifies
    /// (`lemma_rows_in_grid`).
    pub fn row(&self, y: usize) -> (r: &[char])
        requires
            y * self.dims().0 + self.dims().0 <= self.cells().len(),
        ensures
            r@ == self.cells().subrange(y * self.dims().0, y * self.dims().0 + self.dims().0),
    {
        let w = self.size.0;
        assert(self.matrix@.len() == self.matrix.len());
        assert(y * w <= y * w + w);
        let start = y * w;
        let s = self.matrix.as_slice();
        &s[start..start + w]
    }

    /// Draws `glyph` into cell `(x, y)`. A sky glyph (`fade_in`) is
    /// crossfaded one ramp step from the cell's current glyph; globe, limb
    /// and ring glyphs are written directly.
    pub fn draw(&mut self, x: usize, y: usize, glyph: char, fade_in: bool)
        requires
            x < old(self).dims().0,
            y * old(self).dims().0 + x < old(self).cells().len(),
        ensures
            final(self).dims() == old(self).dims(),
            final(self).cell_px() == old(self).cell_px(),
            ({
                let i = y * old(self).dims().0 + x;
                let cur = old(self).cells()[i];
                final(self).cells() == old(self).cells().update(
                    i,
                    if fade_in {
                        spec_fade(cur, glyph)
                    } else {
                        glyph
                    },
                )
            }),
    {
        let w = self.size.0;
        assert(self.matrix@.len() == self.matrix.len());
        let i = y * w + x;
        let c = if fade_in {
            fade(self.matrix[i], glyph)
        } else {
            glyph
        };
        self.matrix.set(i, c);
    }

    /// Blanks every cell.
    pub fn clear(&mut self)
        ensures
            final(self).dims() == old(self).dims(),
            final(self).cell_px() == old(self).cell_px(),
            final(self).cells() == blank(old(self).cells().len()),
    {
        let n = self.matrix.len();
        let mut i: usize = 0;
        while i < n
            invariant
                i <= n,
                n == self.matrix@.len(),
                self.size == old(self).size,
                self.char_pix == old(self).char_pix,
                forall|k: int| 0 <= k < i ==> self.matrix@[k] == ' ',
            decreases n - i,
        {
            self.matrix.set(i, ' ');
            i = i + 1;
        }
        assert(self.matrix@ =~= blank(n as nat));
    }
}

/// Every row of a well-formed canvas lies inside its cell grid.
pub proof fn lemma_rows_in_grid(c: &Canvas, y: int)
    requires
        c.wf(),
        0 <= y < c.dims().1,
    ensures
        y * c.dims().0 + c.dims().0 <= c.cells().len(),
{
    let w = c.dims().0 as int;
    let h = c.dims().1 as int;
    assert(y * w + w <= h * w) by (nonlinear_arith)
        requires
            y < h,
            w >= 0,
    ;
    assert(h * w == w * h) by (nonlinear_arith);
}

/// Twice a terminal dimension, saturating at the largest `u16`.
fn double_u16(v: u16) -> (r: u16)
    ensures
        r == if 2 * v > u16::MAX {
            u16::MAX as int
        } else {
            2 * v
        },
{
    if v > 32767 {
        u16::MAX
    } else {
        v * 2
    }
}

/// Fullscreen canvas: one glyph per terminal cell, so the render grid is
/// exactly the terminal grid.
pub fn fullscreen_canvas(term_size: (u16, u16)) -> (c: Canvas)
    ensures
        c.dims() == (term_size.0 as usize, term_size.1 as usize),
        c.wf(),
        c.cells() == blank(term_size.0 as nat * term_size.1 as nat),
        c.cell_px() == (4usize, 8usize),
{
    Canvas::new(term_size.0, term_size.1, None)
}

/// Size of the windowed canvas for a terminal of `(columns, rows)`: a
/// globe disk that fills the screen height, two cells wide per cell tall.
pub open spec fn window_size(w: u16, h: u16) -> (u16, u16) {
    if w > h {
        (if 2 * h > u16::MAX { u16::MAX } else { (2 * h) as u16 }, h)
    } else {
        (w, if w / 2 > 1 { (w / 2) as u16 } else { 1u16 })
    }
}

/// Windowed canvas for the modes that draw in place: a globe disk that
/// fills the screen height, two cells wide per cell tall.
pub fn window_canvas(term_size: (u16, u16)) -> (c: Canvas)
    ensures
        c.dims() == (
            window_size(term_size.0, term_size.1).0 as usize,
            window_size(term_size.0, term_size.1).1 as usize,
        ),
        c.wf(),
        c.cells() == blank(
            window_size(term_size.0, term_size.1).0 as nat * window_size(term_size.0, term_size.1).1 as nat,
        ),
        c.cell_px() == (4usize, 8usize),
{
    if term_size.0 > term_size.1 {
        Canvas::new(double_u16(term_size.1), term_size.1, None)
    } else {
        let half = term_size.0 / 2;
        let rows = if half > 1 {
            half
        } else {
            1
        };
        Canvas::new(term_size.0, rows, None)
    }
}

} // verus!
