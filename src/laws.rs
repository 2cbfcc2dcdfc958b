//! Properties that hold across the board's operations, stated and proved over
//! the specifications the operations satisfy.

use vstd::prelude::*;
use crate::board::{
    after_hard_drop, blocked, cleared, collides, covers_first, empty_row, fits, gap_pred, has_gap, landing_row,
    merged, Grid, COLUMNS, ROWS,
};
use crate::movement::{clockwise, counterclockwise, rotated, turned_to};
use crate::piece::Piece;
use crate::shapes::{height_of, lemma_shape_geometry, shape, width_of, Tetromino};

verus! {

/// A piece whose cells all lie at row 20 or above never collides: the space
/// above the grid is open.
pub proof fn lemma_open_above(g: Grid, p: Piece)
    requires
        forall|i: int| 0 <= i < 4 ==> #[trigger] p.cell(i).0 >= ROWS,
    ensures
        !collides(g, p),
{
    assert forall|i: int| 0 <= i < 4 implies !#[trigger] blocked(g, p.cell(i)) by {
        assert(p.cell(i).0 >= ROWS);
    }
}

/// Descending from its row, a piece stops at the lowest row it reaches by
/// falling: it passes every row from its landing row up to where it started,
/// and the landing row is 0 or the row below it collides. A piece that starts
/// clear of collisions lands clear of them.
pub proof fn lemma_landing_row(g: Grid, p: Piece)
    ensures
        0 <= landing_row(g, p) <= p.row,
        forall|k: int| landing_row(g, p) <= k < p.row ==> !collides(g, #[trigger] p.at_row(k)),
        landing_row(g, p) == 0 || collides(g, p.at_row(landing_row(g, p) - 1)),
        !collides(g, p) ==> !collides(g, p.at_row(landing_row(g, p))),
    decreases p.row,
{
    assert(p.at_row(p.row as int) == p);
    if p.row > 0 && !collides(g, p.at_row(p.row - 1)) {
        let q = p.at_row(p.row - 1);
        lemma_landing_row(g, q);
        assert forall|k: int| landing_row(g, p) <= k < p.row implies !collides(g, #[trigger] p.at_row(k)) by {
            assert(q.at_row(k) == p.at_row(k));
        }
        assert(q.at_row(landing_row(g, p) - 1) == p.at_row(landing_row(g, p) - 1));
        assert(q.at_row(landing_row(g, p)) == p.at_row(landing_row(g, p)));
    }
}

/// Turning a piece clockwise and then counterclockwise brings it back to
/// where it was, when it stands clear of the walls and neither position collides.
pub proof fn lemma_turn_and_back(g: Grid, p: Piece)
    requires
        p.wf(),
        2 <= p.column <= 4,
        2 <= p.row <= 14,
        !collides(g, p),
        !collides(g, turned_to(p, clockwise(p.rotation as int))),
    ensures
        rotated(g, rotated(g, p, clockwise(p.rotation as int)), counterclockwise(
            clockwise(p.rotation as int),
        )) == p,
{
    let q = rotated(g, p, clockwise(p.rotation as int));
    assert(q == turned_to(p, clockwise(p.rotation as int)));
    assert(counterclockwise(clockwise(p.rotation as int)) == p.rotation);
    assert(turned_to(q, p.rotation as int) == p);
}

/// The number of filled cells in a row.
pub open spec fn filled_count(row: Seq<Option<Tetromino>>) -> int
    decreases row.len(),
{
    if row.len() == 0 {
        0
    } else {
        filled_count(row.drop_last()) + if row.last() is Some { 1int } else { 0int }
    }
}

/// The number of filled cells in a grid.
pub open spec fn grid_count(g: Grid) -> int
    decreases g.len(),
{
    if g.len() == 0 {
        0
    } else {
        grid_count(g.drop_last()) + filled_count(g.last())
    }
}

/// The number of full rows in a grid.
pub open spec fn full_rows(g: Grid) -> int {
    g.len() - g.filter(gap_pred()).len()
}

/// A grid of 20 rows of 10 cells.
pub open spec fn well_shaped(g: Grid) -> bool {
    g.len() == ROWS && forall|r: int| 0 <= r < g.len() ==> (#[trigger] g[r]).len() == COLUMNS
}

proof fn lemma_filled_count_extremes(row: Seq<Option<Tetromino>>)
    ensures
        (forall|c: int| 0 <= c < row.len() ==> (#[trigger] row[c]) is Some) ==> filled_count(row) == row.len(),
        (forall|c: int| 0 <= c < row.len() ==> (#[trigger] row[c]) is None) ==> filled_count(row) == 0,
    decreases row.len(),
{
    if row.len() > 0 {
        lemma_filled_count_extremes(row.drop_last());
        assert(row.last() == row[row.len() - 1]);
    }
}

proof fn lemma_grid_count_add(a: Grid, b: Grid)
    ensures
        grid_count(a + b) == grid_count(a) + grid_count(b),
    decreases b.len(),
{
    if b.len() == 0 {
        assert(a + b =~= a);
    } else {
        lemma_grid_count_add(a, b.drop_last());
        assert((a + b).drop_last() =~= a + b.drop_last());
    }
}

proof fn lemma_count_kept(g: Grid)
    requires
        forall|r: int| 0 <= r < g.len() ==> (#[trigger] g[r]).len() == COLUMNS,
    ensures
        grid_count(g) == grid_count(g.filter(gap_pred())) + COLUMNS * full_rows(g),
        g.filter(gap_pred()).len() <= g.len(),
    decreases g.len(),
{
    reveal(Seq::filter);
    if g.len() > 0 {
        let d = g.drop_last();
        lemma_count_kept(d);
        let x = g.last();
        assert(x == g[g.len() - 1]);
        if has_gap(x) {
            assert(g.filter(gap_pred()) == d.filter(gap_pred()).push(x));
            assert(d.filter(gap_pred()).push(x).drop_last() =~= d.filter(gap_pred()));
        } else {
            assert(g.filter(gap_pred()) == d.filter(gap_pred()));
            assert forall|c: int| 0 <= c < x.len() implies (#[trigger] x[c]) is Some by {
                if x[c] is None {
                    assert(has_gap(x));
                }
            }
            lemma_filled_count_extremes(x);
        }
    }
}

/// Clearing lines keeps the grid at 20 rows, keeps the rows that have an empty
/// cell in their order from the bottom with empty rows above them, leaves no
/// full row, and removes exactly 10 filled cells for each full row.
pub proof fn lemma_clear_lines(g: Grid)
    requires
        well_shaped(g),
    ensures
        well_shaped(cleared(g)),
        cleared(g).take(g.filter(gap_pred()).len() as int) == g.filter(gap_pred()),
        forall|r: int| 0 <= r < ROWS ==> has_gap(#[trigger] cleared(g)[r]),
        grid_count(cleared(g)) == grid_count(g) - COLUMNS * full_rows(g),
{
    broadcast use Seq::lemma_filter_pred;
    let kept = g.filter(gap_pred());
    lemma_count_kept(g);
    let fill = Seq::new((ROWS - kept.len()) as nat, |i: int| empty_row());
    lemma_grid_count_add(kept, fill);
    assert(grid_count(fill) == 0) by {
        lemma_empty_rows_count((ROWS - kept.len()) as nat);
        assert(fill =~= Seq::new((ROWS - kept.len()) as nat, |i: int| empty_row()));
    }
    assert(cleared(g).take(kept.len() as int) =~= kept);
    assert forall|r: int| 0 <= r < ROWS implies has_gap(#[trigger] cleared(g)[r]) by {
        if r < kept.len() {
            assert(gap_pred()(kept[r]));
        } else {
            assert(cleared(g)[r] == empty_row());
            assert(empty_row()[0] is None);
        }
    }
    assert forall|r: int| 0 <= r < ROWS implies (#[trigger] cleared(g)[r]).len() == COLUMNS by {
        if r < kept.len() {
            lemma_filtered_rows_shaped(g, r);
        }
    }
}

proof fn lemma_filtered_rows_shaped(g: Grid, r: int)
    requires
        forall|k: int| 0 <= k < g.len() ==> (#[trigger] g[k]).len() == COLUMNS,
        0 <= r < g.filter(gap_pred()).len(),
    ensures
        g.filter(gap_pred())[r].len() == COLUMNS,
{
    broadcast use Seq::lemma_filter_contains_rev;
    let x = g.filter(gap_pred())[r];
    assert(g.filter(gap_pred()).contains(x));
    assert(g.contains(x));
}

proof fn lemma_empty_rows_count(n: nat)
    ensures
        grid_count(Seq::new(n, |i: int| empty_row())) == 0,
    decreases n,
{
    lemma_filled_count_extremes(empty_row());
    if n > 0 {
        lemma_empty_rows_count((n - 1) as nat);
        assert(Seq::new(n, |i: int| empty_row()).drop_last() =~= Seq::new((n - 1) as nat, |i: int| empty_row()));
    }
}

/// `g` with the cell at `(r, c)` set to `x`.
pub open spec fn set_cell(g: Grid, r: int, c: int, x: Option<Tetromino>) -> Grid {
    g.update(r, g[r].update(c, x))
}

proof fn lemma_filled_count_fill(row: Seq<Option<Tetromino>>, c: int, k: Tetromino)
    requires
        0 <= c < row.len(),
        row[c] is None,
    ensures
        filled_count(row.update(c, Some(k))) == filled_count(row) + 1,
    decreases row.len(),
{
    let u = row.update(c, Some(k));
    if c == row.len() - 1 {
        assert(u.drop_last() =~= row.drop_last());
    } else {
        assert(u.drop_last() =~= row.drop_last().update(c, Some(k)));
        lemma_filled_count_fill(row.drop_last(), c, k);
    }
}

proof fn lemma_grid_count_fill(g: Grid, r: int, c: int, k: Tetromino)
    requires
        0 <= r < g.len(),
        0 <= c < g[r].len(),
        g[r][c] is None,
    ensures
        grid_count(set_cell(g, r, c, Some(k))) == grid_count(g) + 1,
    decreases g.len(),
{
    let u = set_cell(g, r, c, Some(k));
    if r == g.len() - 1 {
        assert(u.drop_last() =~= g.drop_last());
        lemma_filled_count_fill(g[r], c, k);
    } else {
        assert(u.drop_last() =~= set_cell(g.drop_last(), r, c, Some(k)));
        lemma_grid_count_fill(g.drop_last(), r, c, k);
    }
}

/// `g` with the first `n` cells of `p` filled by its shape, one after another.
pub open spec fn stamped(g: Grid, p: Piece, n: nat) -> Grid
    decreases n,
{
    if n == 0 {
        g
    } else {
        let (r, c) = p.cell(n - 1);
        set_cell(stamped(g, p, (n - 1) as nat), r, c, Some(p.kind))
    }
}

proof fn lemma_stamped(g: Grid, p: Piece, n: nat)
    requires
        well_shaped(g),
        n <= 4,
        forall|i: int|
            0 <= i < 4 ==> 0 <= (#[trigger] p.cell(i)).0 < ROWS && 0 <= p.cell(i).1 < COLUMNS
                && g[p.cell(i).0][p.cell(i).1] is None,
        forall|i: int, j: int| 0 <= i < j < 4 ==> #[trigger] p.cell(i) != #[trigger] p.cell(j),
    ensures
        well_shaped(stamped(g, p, n)),
        grid_count(stamped(g, p, n)) == grid_count(g) + n,
        forall|r: int, c: int|
            0 <= r < ROWS && 0 <= c < COLUMNS ==> #[trigger] stamped(g, p, n)[r][c] == if covers_first(
                p,
                n as int,
                r,
                c,
            ) {
                Some(p.kind)
            } else {
                g[r][c]
            },
    decreases n,
{
    if n > 0 {
        let m = (n - 1) as nat;
        lemma_stamped(g, p, m);
        let prev = stamped(g, p, m);
        let (r, c) = p.cell(m as int);
        assert(!covers_first(p, m as int, r, c)) by {
            if covers_first(p, m as int, r, c) {
                let k = choose|k: int| 0 <= k < m && #[trigger] p.cell(k) == (r, c);
                assert(p.cell(k) != p.cell(m as int));
            }
        }
        assert(prev[r][c] is None);
        lemma_grid_count_fill(prev, r, c, p.kind);
        assert forall|rr: int, cc: int| 0 <= rr < ROWS && 0 <= cc < COLUMNS implies #[trigger] stamped(
            g,
            p,
            n,
        )[rr][cc] == if covers_first(p, n as int, rr, cc) {
            Some(p.kind)
        } else {
            g[rr][cc]
        } by {
            if (rr, cc) == (r, c) {
                assert(covers_first(p, n as int, rr, cc));
            } else if covers_first(p, n as int, rr, cc) {
                let k = choose|k: int| 0 <= k < n && #[trigger] p.cell(k) == (rr, cc);
                assert(covers_first(p, m as int, rr, cc));
            } else {
                assert(!covers_first(p, m as int, rr, cc));
            }
        }
    }
}

/// Merging a piece that lies wholly within the grid and collides with nothing
/// fills exactly four more cells.
pub proof fn lemma_merge_adds_four(g: Grid, p: Piece)
    requires
        well_shaped(g),
        p.wf(),
        p.column + width_of(p.kind, p.rotation as int) <= COLUMNS,
        p.row + height_of(p.kind, p.rotation as int) <= ROWS,
        !collides(g, p),
    ensures
        well_shaped(merged(g, p)),
        grid_count(merged(g, p)) == grid_count(g) + 4,
{
    lemma_shape_geometry(p.kind, p.rotation as int);
    let s = shape(p.kind, p.rotation as int);
    assert forall|i: int| 0 <= i < 4 implies 0 <= (#[trigger] p.cell(i)).0 < ROWS && 0 <= p.cell(i).1
        < COLUMNS && g[p.cell(i).0][p.cell(i).1] is None by {
        assert(s[i] == s[i]);
        assert(!blocked(g, p.cell(i)));
    }
    assert forall|i: int, j: int| 0 <= i < j < 4 implies #[trigger] p.cell(i) != #[trigger] p.cell(j) by {
        assert(s[i] != s[j]);
    }
    lemma_stamped(g, p, 4);
    assert(merged(g, p) =~= stamped(g, p, 4)) by {
        assert forall|r: int| 0 <= r < ROWS implies #[trigger] merged(g, p)[r] =~= stamped(g, p, 4)[r] by {
            assert forall|c: int| 0 <= c < COLUMNS implies merged(g, p)[r][c] == stamped(g, p, 4)[r][c] by {
                assert(covers_first(p, 4, r, c) == p.covers(r, c));
            }
        }
    }
}

/// A hard drop of a piece that starts clear of collisions, lies between the
/// walls and fits settles it at the lowest row it reaches by falling (row 0,
/// or the row whose next row down collides, with every row passed on the way
/// clear), merges its four cells there and clears the full rows: the rows with
/// an empty cell stay in order beneath empty rows, and the filled cells number
/// those before plus four less ten for each full row.
pub proof fn lemma_hard_drop(g: Grid, p: Piece)
    requires
        well_shaped(g),
        p.wf(),
        p.column + width_of(p.kind, p.rotation as int) <= COLUMNS,
        !collides(g, p),
        fits(g, p),
    ensures
        0 <= landing_row(g, p) <= p.row,
        forall|k: int| landing_row(g, p) <= k <= p.row ==> !collides(g, #[trigger] p.at_row(k)),
        landing_row(g, p) == 0 || collides(g, p.at_row(landing_row(g, p) - 1)),
        after_hard_drop(g, p) == cleared(merged(g, p.at_row(landing_row(g, p)))),
        well_shaped(after_hard_drop(g, p)),
        cleared(merged(g, p.at_row(landing_row(g, p)))).take(
            merged(g, p.at_row(landing_row(g, p))).filter(gap_pred()).len() as int,
        ) == merged(g, p.at_row(landing_row(g, p))).filter(gap_pred()),
        grid_count(after_hard_drop(g, p)) == grid_count(g) + 4 - COLUMNS * full_rows(
            merged(g, p.at_row(landing_row(g, p))),
        ),
{
    lemma_landing_row(g, p);
    let r = landing_row(g, p);
    let q = p.at_row(r);
    assert(p.at_row(p.row as int) == p);
    assert(q.cell(0) == q.cell(0));
    lemma_merge_adds_four(g, q);
    lemma_clear_lines(merged(g, q));
}

} // verus!
