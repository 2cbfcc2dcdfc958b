//! A playing session: the falling piece's life cycle, gravity and auto-shift
//! timing, the hold slot and the piece sequencer. Times are nanoseconds on a
//! clock that the caller reads.

use vstd::prelude::*;
use rand::rngs::StdRng;
use crate::bag::{drawn, generate_batch, is_bag, random_in};
use crate::board::{after_hard_drop, descended, empty_grid, Board, Grid, COLUMNS};
use crate::movement::{
    clockwise, counterclockwise, resting, rotated, slid_left, slid_right, stepped_left,
    stepped_right,
};
use crate::piece::Piece;
use crate::shapes::{width_of, Tetromino};

verus! {

/// Column at which new pieces appear.
pub const SPAWN_COLUMN: u8 = 3;

/// Row at which new pieces appear.
pub const SPAWN_ROW: u8 = 18;

/// The first interval between gravity ticks: one second.
pub const FIRST_TICK: u64 = 1_000_000_000;

/// How long a horizontal key is held before the piece slides as far as it can: 60 ms.
pub const DAS_DELAY: u64 = 60_000_000;

/// An input that the session reacts to.
#[derive(Clone, Copy, Debug, PartialEq, Eq, Structural)]
pub enum Key {
    HardDrop,
    Left,
    Right,
    Hold,
    RotateClockwise,
    RotateCounterclockwise,
    Other,
}

/// The state of one game.
pub struct Tetris {
    /// When gravity next pulls the piece down.
    pub next_tick: u64,
    /// The current interval between gravity ticks.
    pub tick_speed: u64,
    pub board: Board,
    pub rng: StdRng,
    /// Kinds still to deal from the current bag; the last is dealt first.
    pub current_batch: Vec<Tetromino>,
    /// The bag that follows the current one.
    pub next_batch: Vec<Tetromino>,
    /// The falling piece, if any.
    pub current_piece: Option<Piece>,
    /// A pending slide: when it fires, and whether it goes right.
    pub das_time: Option<(u64, bool)>,
    /// Whether hold was used since the last lock, and the held kind.
    pub hold: (bool, Option<Tetromino>),
}

/// A new piece of `kind` at the spawn position.
pub open spec fn spawn(kind: Tetromino) -> Piece {
    Piece { kind, column: SPAWN_COLUMN, row: SPAWN_ROW, rotation: 0 }
}

/// `t + d`, held at the largest time when it would overflow.
pub open spec fn advanced(t: u64, d: u64) -> u64 {
    if t + d > u64::MAX {
        u64::MAX
    } else {
        (t + d) as u64
    }
}

/// The tick interval after one more fall: 499/500 of it, rounded down.
pub open spec fn accelerated(speed: u64) -> u64 {
    (speed * 499 / 500) as u64
}

/// Gravity at time `now`, from deadline `next_tick` and interval `speed`: while
/// the deadline has passed, the piece either falls a row (the interval shrinks,
/// the deadline moves on by it) or, resting, is hard-dropped and locks, which
/// moves the deadline on once more and ends the catch-up.
pub open spec fn fall(g: Grid, p: Piece, next_tick: u64, speed: u64, now: u64) -> (
    Grid,
    Option<Piece>,
    u64,
    u64,
)
    decreases p.row,
{
    if now < next_tick {
        (g, Some(p), next_tick, speed)
    } else if resting(g, p) {
        (after_hard_drop(g, p), None, advanced(next_tick, speed), speed)
    } else {
        fall(g, p.at_row(p.row - 1), advanced(next_tick, accelerated(speed)), accelerated(speed), now)
    }
}

/// The interval `speed` shortened by one fall, computed without overflow.
fn accelerate(speed: u64) -> (r: u64)
    ensures
        r == accelerated(speed),
{
    let whole = speed / 500;
    let part = speed % 500;
    proof {
        let q = whole as int;
        let m = part as int;
        assert(speed == 500 * q + m);
        assert((500 * q + m) * 499 / 500 == 499 * q + m * 499 / 500) by (nonlinear_arith)
            requires
                0 <= m < 500,
                0 <= q,
        {
            assert((500 * q + m) * 499 == 500 * (499 * q) + m * 499);
        }
        assert(m * 499 / 500 < 500) by (nonlinear_arith)
            requires
                0 <= m < 500,
        ;
        assert(499 * q <= q * 500) by (nonlinear_arith)
            requires
                0 <= q,
        ;
    }
    whole * 499 + part * 499 / 500
}

/// A pending slide whose time has come.
pub open spec fn das_fires(das: Option<(u64, bool)>, now: u64) -> bool {
    das matches Some((t, _)) && t <= now
}

/// `p` slid to the right wall or obstruction when `right`, else to the left.
pub open spec fn charged(g: Grid, p: Piece, right: bool) -> Piece {
    if right {
        slid_right(g, p)
    } else {
        slid_left(g, p)
    }
}

/// The board, piece, deadline, interval and pending slide after one update at
/// `now`: nothing changes before the deadline; once it has passed, a pending
/// slide whose time has come fires first and is cleared, then gravity catches up.
pub open spec fn after_gravity(
    g: Grid,
    p: Piece,
    next_tick: u64,
    speed: u64,
    das: Option<(u64, bool)>,
    now: u64,
) -> (Grid, Option<Piece>, u64, u64, Option<(u64, bool)>) {
    if now < next_tick {
        (g, Some(p), next_tick, speed, das)
    } else if das_fires(das, now) {
        let f = fall(g, charged(g, p, (das->0).1), next_tick, speed, now);
        (f.0, f.1, f.2, f.3, None)
    } else {
        let f = fall(g, p, next_tick, speed, now);
        (f.0, f.1, f.2, f.3, das)
    }
}

/// `after` is `before` with its falling piece `p` put through one update at
/// `now`; a lock clears the hold-used flag.
pub open spec fn gravity_applied(p: Piece, before: Tetris, after: Tetris, now: u64) -> bool {
    let o = after_gravity(before.board@, p, before.next_tick, before.tick_speed, before.das_time, now);
    &&& after.board@ == o.0
    &&& after.current_piece == o.1
    &&& after.next_tick == o.2
    &&& after.tick_speed == o.3
    &&& after.das_time == o.4
    &&& after.hold == (if o.1 is None { false } else { before.hold.0 }, before.hold.1)
}

/// The two batches are as they were.
pub open spec fn same_batches(before: Tetris, after: Tetris) -> bool {
    after.current_batch@ == before.current_batch@ && after.next_batch@ == before.next_batch@
}

/// The batches and the random source are as they were: nothing was dealt.
pub open spec fn same_sequencer(before: Tetris, after: Tetris) -> bool {
    same_batches(before, after) && after.rng == before.rng
}

/// The random source is drawn from only when the current batch has run out.
pub open spec fn rng_kept_unless_refilled(before: Tetris, after: Tetris) -> bool {
    before.current_batch@.len() > 0 ==> after.rng == before.rng
}

/// The sequencer went from `before` to `after` by dealing `kind`.
pub open spec fn dealt(before: Tetris, after: Tetris, kind: Tetromino) -> bool {
    drawn(before.current_batch@, before.next_batch@, after.current_batch@, after.next_batch@, kind)
}

/// The effect of the hold key: nothing when hold was already used or no piece
/// falls. Otherwise the falling piece's kind goes into the slot, and the piece
/// is replaced at the spawn position by the kind held before, or by a newly
/// dealt kind when the slot was empty; hold is then marked used.
pub open spec fn hold_switched(before: Tetris, after: Tetris) -> bool {
    &&& after.board == before.board
    &&& after.next_tick == before.next_tick
    &&& after.tick_speed == before.tick_speed
    &&& after.das_time == before.das_time
    &&& if before.hold.0 || before.current_piece is None {
        after.current_piece == before.current_piece && after.hold == before.hold && same_sequencer(
            before,
            after,
        )
    } else {
        &&& after.hold == (true, Some(before.current_piece->0.kind))
        &&& match before.hold.1 {
            Some(held) => after.current_piece == Some(spawn(held)) && same_sequencer(before, after),
            None => after.current_piece matches Some(p) && p == spawn(p.kind) && dealt(
                before,
                after,
                p.kind,
            ) && rng_kept_unless_refilled(before, after),
        }
    }
}

/// The kinds to be dealt, in order: the current bag from its end, then the next bag.
pub open spec fn upcoming(t: Tetris) -> Seq<Tetromino> {
    t.current_batch@.reverse() + t.next_batch@.reverse()
}

/// Only the falling piece and the pending slide may differ.
pub open spec fn same_but_piece_and_das(before: Tetris, after: Tetris) -> bool {
    &&& after.board == before.board
    &&& after.next_tick == before.next_tick
    &&& after.tick_speed == before.tick_speed
    &&& after.hold == before.hold
    &&& same_sequencer(before, after)
}

/// The effect of pressing `key` at `now`. A repeated press does nothing. Hard
/// drop locks the falling piece and clears the hold-used flag. Left and right
/// take one step and arm a slide in that direction `DAS_DELAY` from now. Hold
/// acts as `hold_switched` says. The rotation keys turn the falling piece.
pub open spec fn pressed(before: Tetris, after: Tetris, key: Key, repeat: bool, now: u64) -> bool {
    let g = before.board@;
    if repeat || key == Key::Other {
        same_but_piece_and_das(before, after) && after.current_piece == before.current_piece
            && after.das_time == before.das_time
    } else {
        match key {
            Key::HardDrop => {
                &&& after.current_piece is None
                &&& after.next_tick == before.next_tick
                &&& after.tick_speed == before.tick_speed
                &&& after.das_time == before.das_time
                &&& same_sequencer(before, after)
                &&& match before.current_piece {
                    Some(p) => after.board@ == after_hard_drop(g, p) && after.hold == (false, before.hold.1),
                    None => after.board == before.board && after.hold == before.hold,
                }
            },
            Key::Left | Key::Right => {
                &&& same_but_piece_and_das(before, after)
                &&& match before.current_piece {
                    Some(p) => {
                        &&& after.current_piece == Some(
                            if key == Key::Left { stepped_left(g, p) } else { stepped_right(g, p) },
                        )
                        &&& after.das_time == Some((advanced(now, DAS_DELAY), key == Key::Right))
                    },
                    None => after.current_piece is None && after.das_time == before.das_time,
                }
            },
            Key::Hold => hold_switched(before, after),
            _ => {
                &&& same_but_piece_and_das(before, after)
                &&& after.das_time == before.das_time
                &&& after.current_piece == match before.current_piece {
                    Some(p) => Some(
                        rotated(
                            g,
                            p,
                            if key == Key::RotateClockwise {
                                clockwise(p.rotation as int)
                            } else {
                                counterclockwise(p.rotation as int)
                            },
                        ),
                    ),
                    None => None,
                }
            },
        }
    }
}

/// The effect of releasing `key`: releasing left or right disarms a pending
/// slide in that same direction; nothing else changes.
pub open spec fn released(before: Tetris, after: Tetris, key: Key) -> bool {
    &&& same_but_piece_and_das(before, after)
    &&& after.current_piece == before.current_piece
    &&& after.das_time == match before.das_time {
        Some((_, right)) => if (key == Key::Left && !right) || (key == Key::Right && right) {
            None
        } else {
            before.das_time
        },
        None => None,
    }
}

impl Tetris {
    /// The falling piece lies in one of the defined rotation states, and the
    /// next batch is a bag unless none has been dealt yet.
    pub open spec fn wf(&self) -> bool {
        &&& self.current_piece matches Some(p) ==> p.wf()
        &&& self.next_batch@.len() == 0 || is_bag(self.next_batch@)
    }

    /// A new game at time `now`, on an empty board, dealing from `rng`.
    pub fn new(rng: StdRng, now: u64) -> (t: Tetris)
        ensures
            t.wf(),
            t.board@ == empty_grid(),
            t.current_piece is None,
            t.current_batch@.len() == 0,
            t.next_batch@.len() == 0,
            t.das_time is None,
            t.hold == (false, None::<Tetromino>),
            t.tick_speed == FIRST_TICK,
            t.next_tick == advanced(now, FIRST_TICK),
    {
        Tetris {
            next_tick: now.saturating_add(FIRST_TICK),
            tick_speed: FIRST_TICK,
            board: Board::new(),
            rng,
            current_batch: Vec::new(),
            next_batch: Vec::new(),
            current_piece: None,
            das_time: None,
            hold: (false, None),
        }
    }

    /// Deals the next kind from the bags, refilling them as `drawn` describes.
    pub fn next_piece(&mut self) -> (r: Tetromino)
        requires
            old(self).wf(),
        ensures
            final(self).wf(),
            dealt(*old(self), *final(self), r),
            rng_kept_unless_refilled(*old(self), *final(self)),
            final(self).board == old(self).board,
            final(self).current_piece == old(self).current_piece,
            final(self).next_tick == old(self).next_tick,
            final(self).tick_speed == old(self).tick_speed,
            final(self).das_time == old(self).das_time,
            final(self).hold == old(self).hold,
    {
        if self.current_batch.len() == 0 {
            std::mem::swap(&mut self.current_batch, &mut self.next_batch);
            generate_batch(&mut self.rng, &mut self.next_batch);
            if self.current_batch.len() == 0 {
                generate_batch(&mut self.rng, &mut self.current_batch);
            }
        }
        proof {
            if self.current_batch@.len() == 0 {
                crate::bag::lemma_bag_counts(self.current_batch@);
            }
        }
        let ghost dealing = self.current_batch@;
        let kind = self.current_batch.pop().unwrap();
        assert(dealing == self.current_batch@.push(kind));
        kind
    }
    /// The hold key: see `hold_switched`.
    pub fn switch_hold(&mut self)
        requires
            old(self).wf(),
        ensures
            final(self).wf(),
            hold_switched(*old(self), *final(self)),
    {
        if !self.hold.0 {
            if let Some(current) = self.current_piece {
                match self.hold.1 {
                    Some(held) => {
                        self.hold.1 = Some(current.kind);
                        self.current_piece = Some(
                            Piece { kind: held, column: SPAWN_COLUMN, row: SPAWN_ROW, rotation: 0 },
                        );
                    },
                    None => {
                        self.hold.1 = Some(current.kind);
                        let kind = self.next_piece();
                        self.current_piece = Some(
                            Piece { kind, column: SPAWN_COLUMN, row: SPAWN_ROW, rotation: 0 },
                        );
                    },
                }
                self.hold.0 = true;
            }
        }
    }

    /// Advances the game to time `now`: a new piece is dealt when none falls,
    /// then gravity and a pending slide act as `after_gravity` describes.
    pub fn update(&mut self, now: u64)
        requires
            old(self).wf(),
        ensures
            final(self).wf(),
            old(self).current_piece matches Some(p) ==> gravity_applied(p, *old(self), *final(self), now)
                && same_sequencer(*old(self), *final(self)),
            old(self).current_piece is None ==> rng_kept_unless_refilled(*old(self), *final(self)),
            old(self).current_piece is None ==> exists|k: Tetromino|
                #[trigger] dealt(*old(self), *final(self), k) && gravity_applied(
                    spawn(k),
                    *old(self),
                    *final(self),
                    now,
                ),
    {
        let ghost start = *self;
        if self.current_piece.is_none() {
            let kind = self.next_piece();
            self.current_piece = Some(Piece { kind, column: SPAWN_COLUMN, row: SPAWN_ROW, rotation: 0 });
        }
        let ghost spawned = *self;
        let mut piece = self.current_piece.unwrap();
        let ghost first = piece;
        if now < self.next_tick {
            assert(start.current_piece is None ==> dealt(start, *self, first.kind));
            return;
        }
        if let Some((deadline, right)) = self.das_time {
            if deadline <= now {
                if right {
                    self.board.das_right(&mut piece);
                } else {
                    self.board.das_left(&mut piece);
                }
                self.das_time = None;
            }
        }
        self.current_piece = Some(piece);
        let ghost target = fall(self.board@, piece, self.next_tick, self.tick_speed, now);
        assert(after_gravity(spawned.board@, first, spawned.next_tick, spawned.tick_speed, spawned.das_time, now)
            == (target.0, target.1, target.2, target.3, self.das_time));
        loop
            invariant_except_break
                self.current_piece == Some(piece),
                fall(self.board@, piece, self.next_tick, self.tick_speed, now) == target,
                self.hold == spawned.hold,
            invariant
                self.wf(),
                piece.wf(),
                same_sequencer(spawned, *self),
                self.das_time == after_gravity(spawned.board@, first, spawned.next_tick, spawned.tick_speed, spawned.das_time, now).4,
            ensures
                self.wf(),
                self.board@ == target.0,
                self.current_piece == target.1,
                self.next_tick == target.2,
                self.tick_speed == target.3,
                self.hold == (if target.1 is None { false } else { spawned.hold.0 }, spawned.hold.1),
                same_sequencer(spawned, *self),
                self.das_time == after_gravity(spawned.board@, first, spawned.next_tick, spawned.tick_speed, spawned.das_time, now).4,
            decreases piece.row,
        {
            if now < self.next_tick {
                break;
            }
            if self.board.move_piece_down(&mut piece) {
                self.current_piece = None;
                self.hold.0 = false;
                self.next_tick = self.next_tick.saturating_add(self.tick_speed);
                break;
            }
            self.tick_speed = accelerate(self.tick_speed);
            self.next_tick = self.next_tick.saturating_add(self.tick_speed);
            self.current_piece = Some(piece);
        }
        proof {
            if start.current_piece is None {
                assert(dealt(start, *self, first.kind));
            }
        }
    }

    /// Reacts to `key` pressed at `now`, as `pressed` describes.
    pub fn key_down_event(&mut self, key: Key, repeat: bool, now: u64)
        requires
            old(self).wf(),
        ensures
            final(self).wf(),
            pressed(*old(self), *final(self), key, repeat, now),
    {
        if repeat {
            return;
        }
        match key {
            Key::HardDrop => {
                if let Some(piece) = self.current_piece {
                    self.board.hard_drop(piece);
                    self.hold.0 = false;
                }
                self.current_piece = None;
            },
            Key::Left => {
                if let Some(piece) = self.current_piece {
                    let mut piece = piece;
                    self.board.move_piece_left(&mut piece);
                    self.das_time = Some((now.saturating_add(DAS_DELAY), false));
                    self.current_piece = Some(piece);
                }
            },
            Key::Right => {
                if let Some(piece) = self.current_piece {
                    let mut piece = piece;
                    self.board.move_piece_right(&mut piece);
                    self.das_time = Some((now.saturating_add(DAS_DELAY), true));
                    self.current_piece = Some(piece);
                }
            },
            Key::Hold => {
                self.switch_hold();
            },
            Key::RotateClockwise => {
                if let Some(piece) = self.current_piece {
                    let mut piece = piece;
                    self.board.rotate_piece_clockwise(&mut piece);
                    self.current_piece = Some(piece);
                }
            },
            Key::RotateCounterclockwise => {
                if let Some(piece) = self.current_piece {
                    let mut piece = piece;
                    self.board.rotate_piece_counterclockwise(&mut piece);
                    self.current_piece = Some(piece);
                }
            },
            Key::Other => {},
        }
    }

    /// Reacts to `key` released, as `released` describes.
    pub fn key_up_event(&mut self, key: Key)
        requires
            old(self).wf(),
        ensures
            final(self).wf(),
            released(*old(self), *final(self), key),
    {
        if let Some((_, right)) = self.das_time {
            if (key == Key::Left && !right) || (key == Key::Right && right) {
                self.das_time = None;
            }
        }
    }

    /// Where the falling piece would come to rest if dropped now.
    pub fn ghost(&self) -> (r: Option<Piece>)
        requires
            self.wf(),
        ensures
            r == match self.current_piece {
                Some(p) => Some(descended(self.board@, p)),
                None => None,
            },
    {
        match self.current_piece {
            Some(piece) => {
                let mut ghost_piece = piece;
                self.board.drop(&mut ghost_piece);
                Some(ghost_piece)
            },
            None => None,
        }
    }

    /// Up to `n` of the kinds to be dealt next, in the order they will come:
    /// the rest of the current bag, then the next bag.
    pub fn preview(&self, n: usize) -> (r: Vec<Tetromino>)
        ensures
            r@ == upcoming(*self).take(if n < upcoming(*self).len() { n as int } else { upcoming(*self).len() as int }),
    {
        let ghost all = upcoming(*self);
        let mut out: Vec<Tetromino> = Vec::new();
        let mut i: usize = self.current_batch.len();
        while i > 0 && out.len() < n
            invariant
                i <= self.current_batch@.len(),
                out@.len() == self.current_batch@.len() - i,
                out@.len() <= n,
                out@ == all.take(out@.len() as int),
                all == upcoming(*self),
            decreases i,
        {
            i -= 1;
            out.push(self.current_batch[i]);
            assert(out@ =~= all.take(out@.len() as int));
        }
        let mut j: usize = self.next_batch.len();
        while j > 0 && out.len() < n
            invariant
                i == 0 || out@.len() == n,
                j <= self.next_batch@.len(),
                out@.len() <= n,
                i == 0 ==> out@.len() == self.current_batch@.len() + self.next_batch@.len() - j,
                out@ == all.take(out@.len() as int),
                all == upcoming(*self),
            decreases j,
        {
            j -= 1;
            out.push(self.next_batch[j]);
            assert(out@ =~= all.take(out@.len() as int));
        }
        out
    }

    /// Deals a kind, picks a random rotation and a column where the piece fits
    /// between the walls, and hard-drops it from row 20.
    pub fn _place_random(&mut self)
        requires
            old(self).wf(),
        ensures
            final(self).wf(),
            exists|p: Piece|
                #[trigger] dealt(*old(self), *final(self), p.kind) && p.row == 20 && p.wf() && p.column
                    <= COLUMNS - width_of(p.kind, p.rotation as int) && final(self).board@
                    == after_hard_drop(old(self).board@, p),
            final(self).current_piece == old(self).current_piece,
            final(self).next_tick == old(self).next_tick,
            final(self).tick_speed == old(self).tick_speed,
            final(self).das_time == old(self).das_time,
            final(self).hold == old(self).hold,
    {
        let kind = self.next_piece();
        let rotation = random_in(&mut self.rng, 0, 4);
        let column = random_in(&mut self.rng, 0, 11 - kind.width(rotation) as u8);
        let piece = Piece { kind, column, row: 20, rotation };
        self.board.hard_drop(piece);
        assert(dealt(*old(self), *self, piece.kind));
    }
}

} // verus!
