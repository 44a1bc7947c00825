//! Frame diffing: which cells of a canvas row changed since the last frame.
//!
//! A terminal redraw only needs the changed cells, batched into maximal
//! runs so each run costs one cursor move and one write.

use vstd::prelude::*;

verus! {

/// Whether cell `p` lies in one of the runs.
pub open spec fn in_runs(runs: Seq<(usize, usize)>, p: int) -> bool {
    exists|i: int| 0 <= i < runs.len() && runs[i].0 <= p < #[trigger] runs[i].1
}

/// The runs are non-empty, in order, and separated by at least one cell.
pub open spec fn runs_ordered(runs: Seq<(usize, usize)>) -> bool {
    &&& forall|i: int| 0 <= i < runs.len() ==> #[trigger] runs[i].0 < runs[i].1
    &&& forall|i: int, j: int| 0 <= i < j < runs.len() ==> #[trigger] runs[i].1 < #[trigger] runs[j].0
}

/// `runs` are exactly the maximal runs of cells where `row` and `prev`
/// differ: every changed cell is in a run, every run cell changed, and
/// runs never touch (the cell between two runs is unchanged).
pub open spec fn is_change_runs(row: Seq<char>, prev: Seq<char>, runs: Seq<(usize, usize)>) -> bool {
    &&& runs_ordered(runs)
    &&& forall|i: int| 0 <= i < runs.len() ==> #[trigger] runs[i].1 <= row.len()
    &&& forall|p: int| 0 <= p < row.len() ==> (row[p] != prev[p] <==> in_runs(runs, p))
}

/// Maximal runs `[start, end)` of cells where `row` differs from `prev`,
/// left to right.
pub fn change_runs(row: &[char], prev: &[char]) -> (runs: Vec<(usize, usize)>)
    requires
        row@.len() == prev@.len(),
    ensures
        is_change_runs(row@, prev@, runs@),
{
    let n = row.len();
    let mut runs: Vec<(usize, usize)> = Vec::new();
    let mut x: usize = 0;
    while x < n
        invariant
            n == row@.len(),
            n == prev@.len(),
            x <= n,
            runs_ordered(runs@),
            forall|i: int| 0 <= i < runs@.len() ==> #[trigger] runs@[i].1 <= x,
            forall|i: int|
                0 <= i < runs@.len() ==> (#[trigger] runs@[i].1 == n || row@[runs@[i].1 as int]
                    == prev@[runs@[i].1 as int]),
            forall|p: int| 0 <= p < x ==> (row@[p] != prev@[p] <==> in_runs(runs@, p)),
        decreases n - x,
    {
        if row[x] == prev[x] {
            proof {
                assert(!in_runs(runs@, x as int));
            }
            x = x + 1;
        } else {
            let start = x;
            while x < n && row[x] != prev[x]
                invariant
                    n == row@.len(),
                    n == prev@.len(),
                    start <= x <= n,
                    forall|p: int| start <= p < x ==> row@[p] != prev@[p],
                decreases n - x,
            {
                x = x + 1;
            }
            let ghost old_runs = runs@;
            runs.push((start, x));
            proof {
                assert forall|i: int, j: int| 0 <= i < j < runs@.len() implies #[trigger] runs@[i].1
                    < #[trigger] runs@[j].0 by {
                    if j == runs@.len() - 1 {
                        assert(old_runs[i].1 <= start);
                        assert(old_runs[i].1 != start);
                    }
                }
                assert forall|p: int| 0 <= p < x implies (row@[p] != prev@[p] <==> in_runs(
                    runs@,
                    p,
                )) by {
                    if p < start {
                        if in_runs(old_runs, p) {
                            let i = choose|i: int| 0 <= i < old_runs.len() && old_runs[i].0 <= p < #[trigger] old_runs[i].1;
                            assert(runs@[i] == old_runs[i]);
                        }
                        if in_runs(runs@, p) {
                            let i = choose|i: int| 0 <= i < runs@.len() && runs@[i].0 <= p < #[trigger] runs@[i].1;
                            assert(i < old_runs.len());
                            assert(old_runs[i] == runs@[i]);
                        }
                    } else {
                        let last = runs@.len() - 1;
                        assert(runs@[last].0 <= p < runs@[last].1);
                    }
                }
            }
        }
    }
    runs
}

/// Cells outside every change run are the same in both frames, so writing
/// the runs alone turns the previous frame into the new one.
pub proof fn lemma_runs_redraw_frame(row: Seq<char>, prev: Seq<char>, runs: Seq<(usize, usize)>)
    requires
        row.len() == prev.len(),
        is_change_runs(row, prev, runs),
    ensures
        Seq::new(row.len(), |p: int| if in_runs(runs, p) { row[p] } else { prev[p] }) == row,
{
    assert(Seq::new(row.len(), |p: int| if in_runs(runs, p) { row[p] } else { prev[p] }) =~= row);
}

/// An unchanged row has no runs.
pub proof fn lemma_unchanged_row_has_no_runs(row: Seq<char>, runs: Seq<(usize, usize)>)
    requires
        is_change_runs(row, row, runs),
    ensures
        runs.len() == 0,
{
    if runs.len() > 0 {
        assert(runs[0].0 < runs[0].1);
        assert(in_runs(runs, runs[0].0 as int));
    }
}

} // verus!
