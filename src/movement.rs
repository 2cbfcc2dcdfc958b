//! Moving and turning the falling piece, each step checked against the board.

use vstd::prelude::*;
use crate::board::{after_hard_drop, collides, merged, Board, Grid, COLUMNS, ROWS};
use crate::piece::Piece;
use crate::shapes::{height_of, pivot, width_of};

verus! {

/// `x` brought into `[0, hi]`.
pub open spec fn clamp(x: int, hi: int) -> int {
    if x < 0 {
        0
    } else if x > hi {
        hi
    } else {
        x
    }
}

/// `p` in rotation state `rot`, its origin moved by the change in pivot offset
/// and then clamped so that its bounding box lies within the grid.
pub open spec fn turned_to(p: Piece, rot: int) -> Piece {
    let from = pivot(p.kind, p.rotation as int);
    let to = pivot(p.kind, rot);
    Piece {
        kind: p.kind,
        row: clamp(p.row + to.0 - from.0, ROWS - height_of(p.kind, rot)) as u8,
        column: clamp(p.column + to.1 - from.1, COLUMNS - width_of(p.kind, rot)) as u8,
        rotation: rot as u8,
    }
}

/// The result of turning `p` to rotation state `rot` on `g`: the turned piece
/// when it does not collide; otherwise the turned position with the old rotation.
pub open spec fn rotated(g: Grid, p: Piece, rot: int) -> Piece {
    let t = turned_to(p, rot);
    if collides(g, t) {
        Piece { rotation: p.rotation, ..t }
    } else {
        t
    }
}

/// The rotation state a quarter turn clockwise from `rot`.
pub open spec fn clockwise(rot: int) -> int {
    (rot + 1) % 4
}

/// The rotation state a quarter turn counterclockwise from `rot`.
pub open spec fn counterclockwise(rot: int) -> int {
    (rot + 3) % 4
}

/// The piece can take no step further down on `g`: it stands on row 0 or the
/// row below collides.
pub open spec fn resting(g: Grid, p: Piece) -> bool {
    p.row == 0 || collides(g, p.at_row(p.row - 1))
}

/// `p` one column to the left, unless it stands at column 0 or that position collides.
pub open spec fn stepped_left(g: Grid, p: Piece) -> Piece {
    if p.column > 0 && !collides(g, p.at_column(p.column - 1)) {
        p.at_column(p.column - 1)
    } else {
        p
    }
}

/// `p` one column to the right, unless its bounding box touches the right wall
/// or that position collides.
pub open spec fn stepped_right(g: Grid, p: Piece) -> Piece {
    if p.column < COLUMNS - width_of(p.kind, p.rotation as int) && !collides(g, p.at_column(p.column + 1)) {
        p.at_column(p.column + 1)
    } else {
        p
    }
}

/// `p` after stepping left on `g` for as long as a step succeeds.
pub open spec fn slid_left(g: Grid, p: Piece) -> Piece
    decreases p.column,
{
    if p.column > 0 && !collides(g, p.at_column(p.column - 1)) {
        slid_left(g, p.at_column(p.column - 1))
    } else {
        p
    }
}

/// `p` after stepping right on `g` for as long as a step succeeds.
pub open spec fn slid_right(g: Grid, p: Piece) -> Piece
    decreases COLUMNS - p.column,
{
    if p.column < COLUMNS - width_of(p.kind, p.rotation as int) && !collides(g, p.at_column(p.column + 1)) {
        slid_right(g, p.at_column(p.column + 1))
    } else {
        p
    }
}

impl Board {
    /// Moves `piece` one column left unless it stands at column 0 or the new
    /// position collides; reports whether it moved.
    pub fn move_piece_left(&self, piece: &mut Piece) -> (r: bool)
        requires
            old(piece).wf(),
        ensures
            r == (old(piece).column > 0 && !collides(self@, old(piece).at_column(old(piece).column - 1))),
            *final(piece) == stepped_left(self@, *old(piece)),
    {
        if piece.column == 0 {
            return false;
        }
        piece.column -= 1;
        if self.check_collision(*piece) {
            piece.column += 1;
            false
        } else {
            true
        }
    }

    /// Moves `piece` one column right unless its bounding box already touches
    /// the right wall or the new position collides; reports whether it moved.
    pub fn move_piece_right(&self, piece: &mut Piece) -> (r: bool)
        requires
            old(piece).wf(),
        ensures
            r == (old(piece).column < COLUMNS - width_of(old(piece).kind, old(piece).rotation as int)
                && !collides(self@, old(piece).at_column(old(piece).column + 1))),
            *final(piece) == stepped_right(self@, *old(piece)),
    {
        if piece.column as usize >= COLUMNS - piece.kind.width(piece.rotation) {
            return false;
        }
        piece.column += 1;
        if self.check_collision(*piece) {
            piece.column -= 1;
            false
        } else {
            true
        }
    }

    /// Slides `piece` left, one column at a time, until the next step fails.
    pub fn das_left(&self, piece: &mut Piece)
        requires
            old(piece).wf(),
        ensures
            *final(piece) == slid_left(self@, *old(piece)),
            *final(piece) == old(piece).at_column(final(piece).column as int),
            final(piece).column <= old(piece).column,
            forall|k: int|
                final(piece).column <= k < old(piece).column ==> !collides(
                    self@,
                    #[trigger] old(piece).at_column(k),
                ),
            final(piece).column == 0 || collides(self@, old(piece).at_column(final(piece).column - 1)),
    {
        loop
            invariant
                old(piece).wf(),
                *piece == old(piece).at_column(piece.column as int),
                slid_left(self@, *piece) == slid_left(self@, *old(piece)),
                piece.column <= old(piece).column,
                forall|k: int|
                    piece.column <= k < old(piece).column ==> !collides(
                        self@,
                        #[trigger] old(piece).at_column(k),
                    ),
            ensures
                *piece == slid_left(self@, *old(piece)),
                *piece == old(piece).at_column(piece.column as int),
                piece.column <= old(piece).column,
                forall|k: int|
                    piece.column <= k < old(piece).column ==> !collides(
                        self@,
                        #[trigger] old(piece).at_column(k),
                    ),
                piece.column == 0 || collides(self@, old(piece).at_column(piece.column - 1)),
            decreases piece.column,
        {
            let ghost before = *piece;
            if !self.move_piece_left(piece) {
                assert(before.at_column(before.column - 1) == old(piece).at_column(before.column - 1));
                break;
            }
        }
    }

    /// Slides `piece` right, one column at a time, until the next step fails.
    pub fn das_right(&self, piece: &mut Piece)
        requires
            old(piece).wf(),
        ensures
            *final(piece) == slid_right(self@, *old(piece)),
            *final(piece) == old(piece).at_column(final(piece).column as int),
            final(piece).column >= old(piece).column,
            forall|k: int|
                old(piece).column < k <= final(piece).column ==> !collides(
                    self@,
                    #[trigger] old(piece).at_column(k),
                ),
            final(piece).column >= COLUMNS - width_of(old(piece).kind, old(piece).rotation as int)
                || collides(self@, old(piece).at_column(final(piece).column + 1)),
    {
        loop
            invariant
                old(piece).wf(),
                *piece == old(piece).at_column(piece.column as int),
                piece.column >= old(piece).column,
                piece.column <= COLUMNS || piece.column == old(piece).column,
                slid_right(self@, *piece) == slid_right(self@, *old(piece)),
                forall|k: int|
                    old(piece).column < k <= piece.column ==> !collides(
                        self@,
                        #[trigger] old(piece).at_column(k),
                    ),
            ensures
                *piece == slid_right(self@, *old(piece)),
                *piece == old(piece).at_column(piece.column as int),
                piece.column >= old(piece).column,
                forall|k: int|
                    old(piece).column < k <= piece.column ==> !collides(
                        self@,
                        #[trigger] old(piece).at_column(k),
                    ),
                piece.column >= COLUMNS - width_of(old(piece).kind, old(piece).rotation as int)
                    || collides(self@, old(piece).at_column(piece.column + 1)),
            decreases 255 - piece.column,
        {
            let ghost before = *piece;
            if !self.move_piece_right(piece) {
                assert(before.at_column(before.column + 1) == old(piece).at_column(before.column + 1));
                break;
            }
        }
    }

    /// Moves `piece` one row down. When it already rests on row 0 or the row
    /// below collides, it is hard-dropped where it is instead and `true` is
    /// returned: the piece has locked.
    pub fn move_piece_down(&mut self, piece: &mut Piece) -> (r: bool)
        requires
            old(piece).wf(),
        ensures
            r == resting(old(self)@, *old(piece)),
            r ==> final(self)@ == after_hard_drop(old(self)@, *old(piece)) && *final(piece) == *old(piece),
            !r ==> final(self)@ == old(self)@ && *final(piece) == old(piece).at_row(old(piece).row - 1),
    {
        if piece.row == 0 {
            self.hard_drop(*piece);
            true
        } else {
            piece.row -= 1;
            if self.check_collision(*piece) {
                piece.row += 1;
                self.hard_drop(*piece);
                return true;
            }
            false
        }
    }

    /// Turns `piece` a quarter clockwise about its pivot, clamped into the
    /// grid; on a collision the old rotation state is restored, while the
    /// moved position stays.
    pub fn rotate_piece_clockwise(&self, piece: &mut Piece)
        requires
            old(piece).wf(),
        ensures
            *final(piece) == rotated(self@, *old(piece), clockwise(old(piece).rotation as int)),
    {
        let rotation = (piece.rotation + 1) % 4;
        self.turn(piece, rotation);
    }

    /// Turns `piece` a quarter counterclockwise about its pivot, clamped into
    /// the grid; on a collision the old rotation state is restored, while the
    /// moved position stays.
    pub fn rotate_piece_counterclockwise(&self, piece: &mut Piece)
        requires
            old(piece).wf(),
        ensures
            *final(piece) == rotated(self@, *old(piece), counterclockwise(old(piece).rotation as int)),
    {
        let rotation = (piece.rotation + 3) % 4;
        self.turn(piece, rotation);
    }

    /// Turns `piece` to rotation state `rotation` as `rotated` describes.
    fn turn(&self, piece: &mut Piece, rotation: u8)
        requires
            old(piece).wf(),
            rotation < 4,
        ensures
            *final(piece) == rotated(self@, *old(piece), rotation as int),
    {
        let (from_row, from_column) = piece.kind.pivot_offset(piece.rotation);
        let (to_row, to_column) = piece.kind.pivot_offset(rotation);
        let max_row = ROWS - piece.kind.height(rotation);
        let max_column = COLUMNS - piece.kind.width(rotation);
        let row = piece.row as usize + to_row as usize;
        let row = if row < from_row as usize { 0 } else { row - from_row as usize };
        let row = if row > max_row { max_row } else { row };
        let column = piece.column as usize + to_column as usize;
        let column = if column < from_column as usize { 0 } else { column - from_column as usize };
        let column = if column > max_column { max_column } else { column };
        let old_rotation = piece.rotation;
        piece.row = row as u8;
        piece.column = column as u8;
        piece.rotation = rotation;
        if self.check_collision(*piece) {
            piece.rotation = old_rotation;
        }
    }

    /// Merges `piece` into the grid when it collides, and reports whether it did.
    pub fn _place_checked(&mut self, piece: Piece) -> (r: bool)
        requires
            piece.wf(),
        ensures
            r == collides(old(self)@, piece),
            final(self)@ == if r { merged(old(self)@, piece) } else { old(self)@ },
    {
        if self.check_collision(piece) {
            self.place_unchecked(piece);
            true
        } else {
            false
        }
    }
}

} // verus!
