//! A falling piece: a shape placed at a position in one rotation state.

use vstd::prelude::*;
use crate::shapes::{shape, Tetromino};

verus! {

/// A shape at `(row, column)` in rotation state `rotation`. The origin is the
/// bottom-left corner of the shape's bounding box.
#[derive(Clone, Copy, Debug, PartialEq, Eq, Structural)]
pub struct Piece {
    pub kind: Tetromino,
    pub column: u8,
    pub row: u8,
    pub rotation: u8,
}

impl Piece {
    /// The rotation state is one of the four that the shapes define.
    pub open spec fn wf(self) -> bool {
        self.rotation < 4
    }

    /// The absolute `(row, column)` of the piece's `i`-th cell.
    pub open spec fn cell(self, i: int) -> (int, int) {
        let o = shape(self.kind, self.rotation as int)[i];
        (self.row + o.0, self.column + o.1)
    }

    /// The piece has a cell at `(r, c)`.
    pub open spec fn covers(self, r: int, c: int) -> bool {
        exists|i: int| 0 <= i < 4 && #[trigger] self.cell(i) == (r, c)
    }

    /// The same piece moved to row `row`.
    pub open spec fn at_row(self, row: int) -> Piece {
        Piece { row: row as u8, ..self }
    }

    /// The same piece moved to column `column`.
    pub open spec fn at_column(self, column: int) -> Piece {
        Piece { column: column as u8, ..self }
    }

    /// The absolute `(row, column)` of each of the piece's four cells.
    pub fn filled(&self) -> (r: [(usize, usize); 4])
        requires
            self.wf(),
        ensures
            forall|i: int| 0 <= i < 4 ==> (r@[i].0 as int, r@[i].1 as int) == #[trigger] self.cell(i),
    {
        let offsets = self.kind.filled(self.rotation);
        let mut cells: [(usize, usize); 4] = [(0, 0); 4];
        let mut i: usize = 0;
        while i < 4
            invariant
                0 <= i <= 4,
                offsets@ == shape(self.kind, self.rotation as int),
                forall|k: int| 0 <= k < i ==> (cells@[k].0 as int, cells@[k].1 as int) == #[trigger] self.cell(k),
            decreases 4 - i,
        {
            let (dr, dc) = offsets[i];
            cells[i] = (self.row as usize + dr as usize, self.column as usize + dc as usize);
            i += 1;
        }
        cells
    }
}

} // verus!
