//! The seven block shapes and their geometry in each of the four rotation states.

use vstd::prelude::*;

verus! {

/// One of the seven block shapes.
#[derive(Clone, Copy, Debug, PartialEq, Eq, Structural, Hash)]
pub enum Tetromino {
    O,
    T,
    L,
    J,
    S,
    Z,
    I,
}

/// The four cells of `kind` in rotation state `rot`, as `(row, column)` offsets
/// from the shape's origin. Row 0 is the bottom; rotation `r + 1` is rotation `r`
/// turned a quarter clockwise.
pub open spec fn shape(kind: Tetromino, rot: int) -> Seq<(u8, u8)> {
    match kind {
        Tetromino::O => seq![(0, 0), (0, 1), (1, 0), (1, 1)],
        Tetromino::T => if rot == 0 {
            seq![(0, 0), (0, 1), (0, 2), (1, 1)]
        } else if rot == 1 {
            seq![(0, 0), (1, 0), (2, 0), (1, 1)]
        } else if rot == 2 {
            seq![(0, 1), (1, 0), (1, 1), (1, 2)]
        } else {
            seq![(0, 1), (1, 0), (1, 1), (2, 1)]
        },
        Tetromino::L => if rot == 0 {
            seq![(0, 0), (0, 1), (0, 2), (1, 2)]
        } else if rot == 1 {
            seq![(0, 0), (0, 1), (1, 0), (2, 0)]
        } else if rot == 2 {
            seq![(0, 0), (1, 0), (1, 1), (1, 2)]
        } else {
            seq![(0, 1), (1, 1), (2, 0), (2, 1)]
        },
        Tetromino::J => if rot == 0 {
            seq![(0, 0), (0, 1), (0, 2), (1, 0)]
        } else if rot == 1 {
            seq![(0, 0), (1, 0), (2, 0), (2, 1)]
        } else if rot == 2 {
            seq![(0, 2), (1, 0), (1, 1), (1, 2)]
        } else {
            seq![(0, 0), (0, 1), (1, 1), (2, 1)]
        },
        Tetromino::S => if rot % 2 == 0 {
            seq![(0, 0), (0, 1), (1, 1), (1, 2)]
        } else {
            seq![(0, 1), (1, 0), (1, 1), (2, 0)]
        },
        Tetromino::Z => if rot % 2 == 0 {
            seq![(0, 1), (0, 2), (1, 0), (1, 1)]
        } else {
            seq![(0, 0), (1, 0), (1, 1), (2, 1)]
        },
        Tetromino::I => if rot % 2 == 0 {
            seq![(0, 0), (0, 1), (0, 2), (0, 3)]
        } else {
            seq![(0, 0), (1, 0), (2, 0), (3, 0)]
        },
    }
}

/// Columns spanned by `kind` in rotation state `rot`.
pub open spec fn width_of(kind: Tetromino, rot: int) -> int {
    match kind {
        Tetromino::O => 2,
        Tetromino::I => if rot % 2 == 0 { 4 } else { 1 },
        _ => if rot % 2 == 0 { 3 } else { 2 },
    }
}

/// Rows spanned by `kind` in rotation state `rot`.
pub open spec fn height_of(kind: Tetromino, rot: int) -> int {
    match kind {
        Tetromino::O => 2,
        Tetromino::I => if rot % 2 == 0 { 1 } else { 4 },
        _ => if rot % 2 == 0 { 2 } else { 3 },
    }
}

/// The `(row, column)` position, relative to the origin, that the shape keeps
/// fixed while it turns: going from rotation `a` to rotation `b` moves the
/// origin by `pivot(kind, b) - pivot(kind, a)`.
pub open spec fn pivot(kind: Tetromino, rot: int) -> (u8, u8) {
    match kind {
        Tetromino::O => (0, 0),
        Tetromino::I => if rot == 0 {
            (2, 0)
        } else if rot == 1 {
            (0, 2)
        } else if rot == 2 {
            (1, 0)
        } else {
            (0, 1)
        },
        _ => if rot == 0 {
            (1, 0)
        } else if rot == 1 {
            (0, 1)
        } else {
            (0, 0)
        },
    }
}

/// The cell `(row, col)` of a shape spanning `width` columns, turned a quarter
/// clockwise within its bounding box.
pub open spec fn turned_cell(cell: (u8, u8), width: int) -> (u8, u8) {
    ((width - 1 - cell.1) as u8, cell.0)
}

/// Every shape has exactly four distinct cells; its width and height are the
/// tight bounding box of those cells; and each rotation state is the previous
/// one turned a quarter clockwise.
pub proof fn lemma_shape_geometry(kind: Tetromino, rot: int)
    requires
        0 <= rot < 4,
    ensures
        shape(kind, rot).len() == 4,
        forall|i: int, j: int|
            0 <= i < j < 4 ==> #[trigger] shape(kind, rot)[i] != #[trigger] shape(kind, rot)[j],
        forall|i: int|
            0 <= i < 4 ==> (#[trigger] shape(kind, rot)[i]).0 < height_of(kind, rot)
                && shape(kind, rot)[i].1 < width_of(kind, rot),
        exists|i: int| 0 <= i < 4 && (#[trigger] shape(kind, rot)[i]).0 == 0,
        exists|i: int| 0 <= i < 4 && (#[trigger] shape(kind, rot)[i]).0 == height_of(kind, rot) - 1,
        exists|i: int| 0 <= i < 4 && (#[trigger] shape(kind, rot)[i]).1 == 0,
        exists|i: int| 0 <= i < 4 && (#[trigger] shape(kind, rot)[i]).1 == width_of(kind, rot) - 1,
        forall|i: int|
            0 <= i < 4 ==> shape(kind, (rot + 1) % 4).contains(
                turned_cell(#[trigger] shape(kind, rot)[i], width_of(kind, rot)),
            ),
{
    let s = shape(kind, rot);
    let n = shape(kind, (rot + 1) % 4);
    assert(s[0] == s[0] && s[1] == s[1] && s[2] == s[2] && s[3] == s[3]);
    assert(n[0] == n[0] && n[1] == n[1] && n[2] == n[2] && n[3] == n[3]);
}

/// Twice the `(row, column)` position, relative to the origin in rotation
/// state `rot`, of the point about which the turn to the next rotation state
/// rotates the piece.
pub open spec fn turn_centre2(kind: Tetromino, rot: int) -> (int, int) {
    let d_row = pivot(kind, (rot + 1) % 4).0 - pivot(kind, rot).0;
    let d_col = pivot(kind, (rot + 1) % 4).1 - pivot(kind, rot).1;
    let w = width_of(kind, rot);
    (d_row - d_col + w - 1, d_row + d_col + w - 1)
}

/// A turn moves the origin by the change in pivot offset and carries each cell
/// `(r, c)` of the shape, turned within its box, to the point reached by a
/// quarter clockwise turn about the centre `turn_centre2 / 2`. Successive
/// turns share that centre: the centre of the next turn, seen from the moved
/// origin, is the same point.
pub proof fn lemma_turns_share_a_centre(kind: Tetromino, rot: int)
    requires
        0 <= rot < 4,
    ensures
        forall|i: int|
            0 <= i < 4 ==> {
                let cell = #[trigger] shape(kind, rot)[i];
                let centre = turn_centre2(kind, rot);
                let moved = turned_cell(cell, width_of(kind, rot));
                &&& 2 * (pivot(kind, (rot + 1) % 4).0 - pivot(kind, rot).0 + moved.0) == centre.0
                    + centre.1 - 2 * cell.1
                &&& 2 * (pivot(kind, (rot + 1) % 4).1 - pivot(kind, rot).1 + moved.1) == centre.1
                    - centre.0 + 2 * cell.0
            },
        turn_centre2(kind, (rot + 1) % 4) == (
            turn_centre2(kind, rot).0 - 2 * (pivot(kind, (rot + 1) % 4).0 - pivot(kind, rot).0),
            turn_centre2(kind, rot).1 - 2 * (pivot(kind, (rot + 1) % 4).1 - pivot(kind, rot).1),
        ),
{
}

impl Tetromino {
    /// The relative cells of this shape in rotation state `rotation`.
    pub fn filled(&self, rotation: u8) -> (r: [(u8, u8); 4])
        requires
            rotation < 4,
        ensures
            r@ == shape(*self, rotation as int),
    {
        let r: [(u8, u8); 4] = match self {
            Tetromino::O => [(0, 0), (0, 1), (1, 0), (1, 1)],
            Tetromino::T => if rotation == 0 {
                [(0, 0), (0, 1), (0, 2), (1, 1)]
            } else if rotation == 1 {
                [(0, 0), (1, 0), (2, 0), (1, 1)]
            } else if rotation == 2 {
                [(0, 1), (1, 0), (1, 1), (1, 2)]
            } else {
                [(0, 1), (1, 0), (1, 1), (2, 1)]
            },
            Tetromino::L => if rotation == 0 {
                [(0, 0), (0, 1), (0, 2), (1, 2)]
            } else if rotation == 1 {
                [(0, 0), (0, 1), (1, 0), (2, 0)]
            } else if rotation == 2 {
                [(0, 0), (1, 0), (1, 1), (1, 2)]
            } else {
                [(0, 1), (1, 1), (2, 0), (2, 1)]
            },
            Tetromino::J => if rotation == 0 {
                [(0, 0), (0, 1), (0, 2), (1, 0)]
            } else if rotation == 1 {
                [(0, 0), (1, 0), (2, 0), (2, 1)]
            } else if rotation == 2 {
                [(0, 2), (1, 0), (1, 1), (1, 2)]
            } else {
                [(0, 0), (0, 1), (1, 1), (2, 1)]
            },
            Tetromino::S => if rotation % 2 == 0 {
                [(0, 0), (0, 1), (1, 1), (1, 2)]
            } else {
                [(0, 1), (1, 0), (1, 1), (2, 0)]
            },
            Tetromino::Z => if rotation % 2 == 0 {
                [(0, 1), (0, 2), (1, 0), (1, 1)]
            } else {
                [(0, 0), (1, 0), (1, 1), (2, 1)]
            },
            Tetromino::I => if rotation % 2 == 0 {
                [(0, 0), (0, 1), (0, 2), (0, 3)]
            } else {
                [(0, 0), (1, 0), (2, 0), (3, 0)]
            },
        };
        assert(r@ =~= shape(*self, rotation as int));
        r
    }
    /// Columns spanned by this shape in rotation state `rotation`.
    pub fn width(self, rotation: u8) -> (r: usize)
        requires
            rotation < 4,
        ensures
            r == width_of(self, rotation as int),
    {
        match self {
            Tetromino::O => 2,
            Tetromino::I => if rotation % 2 == 0 { 4 } else { 1 },
            _ => if rotation % 2 == 0 { 3 } else { 2 },
        }
    }

    /// Rows spanned by this shape in rotation state `rotation`.
    pub fn height(self, rotation: u8) -> (r: usize)
        requires
            rotation < 4,
        ensures
            r == height_of(self, rotation as int),
    {
        match self {
            Tetromino::O => 2,
            Tetromino::I => if rotation % 2 == 0 { 1 } else { 4 },
            _ => if rotation % 2 == 0 { 2 } else { 3 },
        }
    }

    /// The `(row, column)` pivot offset of this shape in rotation state `rotation`.
    pub fn pivot_offset(self, rotation: u8) -> (r: (u8, u8))
        requires
            rotation < 4,
        ensures
            r == pivot(self, rotation as int),
    {
        match self {
            Tetromino::O => (0, 0),
            Tetromino::I => if rotation == 0 {
                (2, 0)
            } else if rotation == 1 {
                (0, 2)
            } else if rotation == 2 {
                (1, 0)
            } else {
                (0, 1)
            },
            _ => if rotation == 0 {
                (1, 0)
            } else if rotation == 1 {
                (0, 1)
            } else {
                (0, 0)
            },
        }
    }
}

} // verus!
