//! The playing field: a grid of 20 rows by 10 columns, row 0 at the bottom.

use vstd::prelude::*;
use crate::piece::Piece;
use crate::shapes::{height_of, shape, Tetromino};

verus! {

/// Rows in the grid.
pub const ROWS: usize = 20;

/// Columns in the grid.
pub const COLUMNS: usize = 10;

/// A grid as rows of cells, bottom row first; a cell is the shape that filled it, if any.
pub type Grid = Seq<Seq<Option<Tetromino>>>;

/// One square of the grid.
#[derive(Clone, Copy, Debug, PartialEq, Eq, Structural)]
pub struct Cell {
    pub filled: Option<Tetromino>,
}

/// The playing field.
#[derive(Clone, Copy, Debug)]
pub struct Board {
    board: [[Cell; 10]; 20],
}

/// A cell at `(r, c)` is in the way: it lies below the top of the grid and
/// either its column lies off the grid or it is filled. Rows at 20 and above
/// are open, whatever the column.
pub open spec fn blocked(g: Grid, cell: (int, int)) -> bool {
    let (r, c) = cell;
    r < ROWS && (c < 0 || c >= COLUMNS || (0 <= r && g[r][c] is Some))
}

/// Some cell of `p` is in the way on `g`.
pub open spec fn collides(g: Grid, p: Piece) -> bool {
    exists|i: int| 0 <= i < 4 && #[trigger] blocked(g, p.cell(i))
}

/// A row with no filled cell.
pub open spec fn empty_row() -> Seq<Option<Tetromino>> {
    Seq::new(COLUMNS as nat, |c: int| None)
}

/// The grid with no filled cell.
pub open spec fn empty_grid() -> Grid {
    Seq::new(ROWS as nat, |r: int| empty_row())
}

/// The row at which `p` comes to rest when it descends from its own row: it
/// moves down one row at a time until the next row down would collide or it
/// reaches row 0.
pub open spec fn landing_row(g: Grid, p: Piece) -> int
    decreases p.row,
{
    if p.row == 0 {
        0
    } else if collides(g, p.at_row(p.row - 1)) {
        p.row as int
    } else {
        landing_row(g, p.at_row(p.row - 1))
    }
}

/// The descent of `p` ends at a row where the whole piece lies below the top of the grid.
pub open spec fn fits(g: Grid, p: Piece) -> bool {
    landing_row(g, p) <= ROWS - height_of(p.kind, p.rotation as int)
}

/// Where `drop` leaves `p`: at its landing row when it fits, one row below
/// that when it does not, and where it was when its column lies off the grid.
pub open spec fn descended(g: Grid, p: Piece) -> Piece {
    if p.column >= COLUMNS {
        p
    } else if fits(g, p) {
        p.at_row(landing_row(g, p))
    } else {
        p.at_row(landing_row(g, p) - 1)
    }
}

/// `g` with the cells of `p` that lie within the grid filled by `p`'s shape.
pub open spec fn merged(g: Grid, p: Piece) -> Grid {
    Seq::new(
        ROWS as nat,
        |r: int| Seq::new(COLUMNS as nat, |c: int| if p.covers(r, c) { Some(p.kind) } else { g[r][c] }),
    )
}

/// One of the first `n` cells of `p` lies at `(r, c)`.
pub open spec fn covers_first(p: Piece, n: int, r: int, c: int) -> bool {
    exists|k: int| 0 <= k < n && #[trigger] p.cell(k) == (r, c)
}

/// A row with at least one empty cell.
pub open spec fn has_gap(row: Seq<Option<Tetromino>>) -> bool {
    exists|c: int| 0 <= c < row.len() && row[c] is None
}

/// The predicate `has_gap`, as a value.
pub open spec fn gap_pred() -> spec_fn(Seq<Option<Tetromino>>) -> bool {
    |row: Seq<Option<Tetromino>>| has_gap(row)
}

/// `g` with every full row taken out, the rest kept in order from the bottom,
/// and empty rows added on top up to 20 rows.
pub open spec fn cleared(g: Grid) -> Grid {
    let kept = g.filter(gap_pred());
    kept + Seq::new((ROWS - kept.len()) as nat, |i: int| empty_row())
}

/// The grid after `p` is dropped straight down and locked: unchanged when
/// `p`'s column lies off the grid, emptied when `p` does not fit, and otherwise
/// `p` merged at its landing row with the full rows cleared.
pub open spec fn after_hard_drop(g: Grid, p: Piece) -> Grid {
    if p.column >= COLUMNS {
        g
    } else if !fits(g, p) {
        empty_grid()
    } else {
        cleared(merged(g, p.at_row(landing_row(g, p))))
    }
}

/// The cells of a row of the board.
pub open spec fn row_view(a: [Cell; 10]) -> Seq<Option<Tetromino>> {
    Seq::new(COLUMNS as nat, |c: int| a[c].filled)
}

/// Relies on `array_init::from_iter`: it yields `None` when the rows run out
/// before 20, and otherwise the first 20 rows in order.
#[verifier::external_body]
fn rows_from_vec(rows: Vec<[Cell; 10]>) -> (r: Option<[[Cell; 10]; 20]>)
    ensures
        rows@.len() < ROWS ==> r is None,
        rows@.len() >= ROWS ==> r is Some && r->0@ == rows@.take(ROWS as int),
{
    array_init::from_iter(rows)
}

impl View for Board {
    type V = Grid;

    closed spec fn view(&self) -> Grid {
        Seq::new(ROWS as nat, |r: int| Seq::new(COLUMNS as nat, |c: int| self.board[r][c].filled))
    }
}

impl Board {
    /// The board has 20 rows of 10 cells.
    pub proof fn lemma_dimensions(&self)
        ensures
            self@.len() == ROWS,
            forall|r: int| 0 <= r < ROWS ==> (#[trigger] self@[r]).len() == COLUMNS,
    {
    }

    /// An empty board.
    pub fn new() -> (b: Board)
        ensures
            b@ == empty_grid(),
    {
        let b = Board { board: [[Cell { filled: None }; 10]; 20] };
        assert(b@ =~= empty_grid()) by {
            assert forall|r: int| 0 <= r < ROWS implies #[trigger] b@[r] =~= empty_row() by {}
        }
        b
    }

    /// What fills the cell at `(row, column)`.
    pub fn cell(&self, row: usize, column: usize) -> (r: Option<Tetromino>)
        requires
            row < ROWS,
            column < COLUMNS,
        ensures
            r == self@[row as int][column as int],
    {
        self.board[row][column].filled
    }

    /// Whether `piece` is in the way of the grid's walls or filled cells.
    pub fn check_collision(&self, piece: Piece) -> (r: bool)
        requires
            piece.wf(),
        ensures
            r == collides(self@, piece),
    {
        let offsets = piece.kind.filled(piece.rotation);
        let mut i: usize = 0;
        while i < 4
            invariant
                0 <= i <= 4,
                piece.wf(),
                offsets@ == shape(piece.kind, piece.rotation as int),
                forall|k: int| 0 <= k < i ==> !#[trigger] blocked(self@, piece.cell(k)),
            decreases 4 - i,
        {
            let (dr, dc) = offsets[i];
            let r = piece.row as usize + dr as usize;
            let c = piece.column as usize + dc as usize;
            if r < ROWS && (c >= COLUMNS || self.board[r][c].filled.is_some()) {
                assert(blocked(self@, piece.cell(i as int)));
                return true;
            }
            i += 1;
        }
        false
    }
    /// Lowers `piece` row by row from its own row until the next row down
    /// collides or it reaches row 0, and reports whether it came to rest where
    /// it fits below the top of the grid. A piece whose column lies off the
    /// grid is left alone and reported as not fitting; one that does not fit is
    /// left one row below its landing row.
    pub fn drop(&self, piece: &mut Piece) -> (r: bool)
        requires
            old(piece).wf(),
        ensures
            *final(piece) == descended(self@, *old(piece)),
            old(piece).column >= COLUMNS ==> !r,
            old(piece).column < COLUMNS ==> r == fits(self@, *old(piece)),
    {
        if piece.column as usize >= COLUMNS {
            return false;
        }
        let height = piece.kind.height(piece.rotation);
        let ghost landing = landing_row(self@, *piece);
        loop
            invariant
                piece.kind == old(piece).kind,
                piece.column == old(piece).column,
                piece.column < COLUMNS,
                piece.rotation == old(piece).rotation,
                piece.wf(),
                height == height_of(piece.kind, piece.rotation as int),
                landing == landing_row(self@, *old(piece)),
                landing_row(self@, *piece) == landing,
            decreases piece.row,
        {
            if piece.row == 0 {
                return true;
            }
            let ghost above = *piece;
            piece.row -= 1;
            assert(*piece == above.at_row(above.row - 1));
            if self.check_collision(*piece) {
                if (piece.row as usize) < ROWS - height {
                    piece.row += 1;
                    return true;
                } else {
                    return false;
                }
            }
        }
    }

    /// Fills the cells of `piece` that lie within the grid with its shape;
    /// cells off the grid are left out.
    pub fn place_unchecked(&mut self, piece: Piece)
        requires
            piece.wf(),
        ensures
            final(self)@ == merged(old(self)@, piece),
    {
        let cells = piece.filled();
        let mut i: usize = 0;
        while i < 4
            invariant
                0 <= i <= 4,
                piece.wf(),
                forall|k: int| 0 <= k < 4 ==> (cells@[k].0 as int, cells@[k].1 as int) == #[trigger] piece.cell(k),
                forall|r: int, c: int|
                    0 <= r < ROWS && 0 <= c < COLUMNS ==> #[trigger] self@[r][c] == if covers_first(
                        piece,
                        i as int,
                        r,
                        c,
                    ) {
                        Some(piece.kind)
                    } else {
                        old(self)@[r][c]
                    },
            decreases 4 - i,
        {
            let ghost prev = self@;
            let (r, c) = cells[i];
            if r < ROWS && c < COLUMNS {
                let mut row = self.board[r];
                row[c] = Cell { filled: Some(piece.kind) };
                self.board[r] = row;
            }
            assert forall|rr: int, cc: int| 0 <= rr < ROWS && 0 <= cc < COLUMNS implies #[trigger] self@[rr][cc]
                == if covers_first(piece, i + 1, rr, cc) {
                Some(piece.kind)
            } else {
                old(self)@[rr][cc]
            } by {
                if piece.cell(i as int) == (rr, cc) {
                    assert(covers_first(piece, i + 1, rr, cc));
                } else {
                    assert(self@[rr][cc] == prev[rr][cc]);
                    if covers_first(piece, i + 1, rr, cc) {
                        let k = choose|k: int| 0 <= k < i + 1 && #[trigger] piece.cell(k) == (rr, cc);
                        assert(covers_first(piece, i as int, rr, cc));
                    }
                }
            }
            i += 1;
        }
        assert(self@ =~= merged(old(self)@, piece)) by {
            assert forall|r: int| 0 <= r < ROWS implies #[trigger] self@[r] =~= merged(old(self)@, piece)[r] by {
                assert forall|c: int| 0 <= c < COLUMNS implies covers_first(piece, 4, r, c) == piece.covers(r, c) by {
                    if piece.covers(r, c) {
                        let k = choose|k: int| 0 <= k < 4 && #[trigger] piece.cell(k) == (r, c);
                    }
                }
            }
        }
    }

    /// Takes out every full row, lets the rows above settle, and fills the top
    /// with empty rows.
    pub fn clear_lines(&mut self)
        ensures
            final(self)@ == cleared(old(self)@),
    {
        let mut kept: Vec<[Cell; 10]> = Vec::new();
        let mut r: usize = 0;
        while r < ROWS
            invariant
                0 <= r <= ROWS,
                *self == *old(self),
                kept@.map_values(|a: [Cell; 10]| row_view(a)) == self@.take(r as int).filter(gap_pred()),
            decreases ROWS - r,
        {
            let row = self.board[r];
            let mut gap = false;
            let mut c: usize = 0;
            while c < COLUMNS
                invariant
                    0 <= c <= COLUMNS,
                    gap == exists|k: int| 0 <= k < c && row[k].filled is None,
                decreases COLUMNS - c,
            {
                if row[c].filled.is_none() {
                    gap = true;
                }
                c += 1;
            }
            proof {
                assert(row_view(row) =~= self@[r as int]);
                assert(has_gap(self@[r as int]) == gap) by {
                    if gap {
                        let k = choose|k: int| 0 <= k < COLUMNS && row[k].filled is None;
                        assert(self@[r as int][k] is None);
                    }
                }
                assert(self@.take(r as int + 1) == self@.take(r as int).push(self@[r as int]));
                self@.take(r as int).lemma_filter_push(self@[r as int], gap_pred());
            }
            let ghost before = kept@;
            if gap {
                kept.push(row);
                assert(kept@.map_values(|a: [Cell; 10]| row_view(a)) =~= before.map_values(
                    |a: [Cell; 10]| row_view(a),
                ).push(row_view(row)));
            }
            r += 1;
        }
        let ghost kept_rows = self@.filter(gap_pred());
        assert(self@.take(ROWS as int) == self@);
        while kept.len() < ROWS
            invariant
                kept@.len() <= ROWS,
                kept_rows.len() <= kept@.len(),
                kept@.map_values(|a: [Cell; 10]| row_view(a)) == kept_rows + Seq::new(
                    (kept@.len() - kept_rows.len()) as nat,
                    |i: int| empty_row(),
                ),
            decreases ROWS - kept@.len(),
        {
            let ghost before = kept@;
            let blank = [Cell { filled: None }; 10];
            kept.push(blank);
            assert(row_view(blank) =~= empty_row());
            assert(kept@.map_values(|a: [Cell; 10]| row_view(a)) =~= before.map_values(
                |a: [Cell; 10]| row_view(a),
            ).push(empty_row()));
        }
        match rows_from_vec(kept) {
            Some(rows) => {
                self.board = rows;
                assert(self@ =~= cleared(old(self)@)) by {
                    assert forall|r: int| 0 <= r < ROWS implies #[trigger] self@[r] =~= cleared(old(self)@)[r] by {
                        assert(self@[r] =~= row_view(rows@[r]));
                    }
                }
            },
            None => {},
        }
    }

    /// Drops `piece` straight down and locks it: its cells are merged at its
    /// landing row and full rows are cleared. Nothing happens when its column
    /// lies off the grid; the whole grid is emptied when it does not fit.
    pub fn hard_drop(&mut self, piece: Piece)
        requires
            piece.wf(),
        ensures
            final(self)@ == after_hard_drop(old(self)@, piece),
    {
        if piece.column as usize >= COLUMNS {
            return;
        }
        let mut settled = piece;
        if !self.drop(&mut settled) {
            *self = Board::new();
            return;
        }
        assert(settled == piece.at_row(landing_row(self@, piece)));
        self.place_unchecked(settled);
        self.clear_lines();
    }
}

} // verus!
