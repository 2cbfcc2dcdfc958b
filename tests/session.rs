use rand::rngs::StdRng;
use rand::{Rng, SeedableRng};
use tetris::board::Board;
use tetris::game::{Key, Tetris, DAS_DELAY, FIRST_TICK, SPAWN_COLUMN, SPAWN_ROW};
use tetris::piece::Piece;
use tetris::shapes::Tetromino;

fn game(seed: u64) -> Tetris {
    Tetris::new(StdRng::seed_from_u64(seed), 0)
}

fn count(board: &Board) -> usize {
    let mut n = 0;
    for r in 0..20 {
        for c in 0..10 {
            if board.cell(r, c).is_some() {
                n += 1;
            }
        }
    }
    n
}

fn index(kind: Tetromino) -> usize {
    match kind {
        Tetromino::O => 0,
        Tetromino::T => 1,
        Tetromino::L => 2,
        Tetromino::J => 3,
        Tetromino::S => 4,
        Tetromino::Z => 5,
        Tetromino::I => 6,
    }
}

#[test]
fn each_bag_deals_every_kind_once() {
    for seed in 0..20u64 {
        let mut t = game(seed);
        for _ in 0..4 {
            let mut seen = [0usize; 7];
            for _ in 0..7 {
                seen[index(t.next_piece())] += 1;
            }
            assert_eq!(seen, [1; 7]);
        }
    }
}

#[test]
fn bags_are_shuffled() {
    let unshuffled = [
        Tetromino::I,
        Tetromino::Z,
        Tetromino::S,
        Tetromino::J,
        Tetromino::L,
        Tetromino::T,
        Tetromino::O,
    ];
    let mut t = game(11);
    let mut differs = false;
    for _ in 0..5 {
        let mut dealt = Vec::new();
        for _ in 0..7 {
            dealt.push(t.next_piece());
        }
        if dealt != unshuffled {
            differs = true;
        }
    }
    assert!(differs);
}

#[test]
fn preview_reads_current_then_next_bag() {
    let mut t = game(3);
    let first = t.next_piece();
    let preview = t.preview(10);
    assert_eq!(preview.len(), 10);
    let mut dealt = vec![first];
    for _ in 0..10 {
        dealt.push(t.next_piece());
    }
    assert_eq!(&dealt[1..], &preview[..]);
    assert_eq!(t.preview(0).len(), 0);
}

#[test]
fn new_game_state() {
    let t = Tetris::new(StdRng::seed_from_u64(1), 500);
    assert_eq!(t.next_tick, 500 + FIRST_TICK);
    assert_eq!(t.tick_speed, FIRST_TICK);
    assert!(t.current_piece.is_none());
    assert_eq!(t.hold, (false, None));
    assert_eq!(count(&t.board), 0);
}

#[test]
fn update_spawns_a_piece_before_the_first_tick() {
    let mut t = game(5);
    t.update(10);
    let p = t.current_piece.unwrap();
    assert_eq!((p.column, p.row, p.rotation), (SPAWN_COLUMN, SPAWN_ROW, 0));
    assert_eq!(t.next_tick, FIRST_TICK);
}

#[test]
fn gravity_falls_one_row_per_tick_and_speeds_up() {
    let mut t = game(5);
    t.update(0);
    t.update(FIRST_TICK);
    let p = t.current_piece.unwrap();
    assert_eq!(p.row, SPAWN_ROW - 1);
    assert_eq!(t.tick_speed, 998_000_000);
    assert_eq!(t.next_tick, FIRST_TICK + 998_000_000);
}

#[test]
fn late_update_catches_up_on_missed_ticks() {
    let mut t = game(5);
    t.update(0);
    // Ticks due at 1.0 s, 1.998 s and 2.994004 s.
    t.update(3_000_000_000);
    assert_eq!(t.current_piece.unwrap().row, SPAWN_ROW - 3);
    assert_eq!(t.tick_speed, 994_011_992);
}

#[test]
fn gravity_locks_a_resting_piece_and_stops_catching_up() {
    let mut t = game(9);
    t.update(0);
    t.key_down_event(Key::Hold, false, 0);
    assert!(t.hold.0);
    let mut piece = t.current_piece.unwrap();
    piece.row = 0;
    t.current_piece = Some(piece);
    t.update(FIRST_TICK * 10);
    assert!(t.current_piece.is_none());
    assert_eq!(count(&t.board), 4);
    assert!(!t.hold.0);
    assert_eq!(t.next_tick, 2 * FIRST_TICK);
}

#[test]
fn hard_drop_key_locks_and_clears_hold_flag() {
    let mut t = game(2);
    t.update(0);
    t.key_down_event(Key::Hold, false, 0);
    assert!(t.hold.0);
    t.key_down_event(Key::HardDrop, false, 0);
    assert!(t.current_piece.is_none());
    assert!(!t.hold.0);
    assert_eq!(count(&t.board), 4);
}

#[test]
fn repeated_key_presses_are_ignored() {
    let mut t = game(2);
    t.update(0);
    let before = t.current_piece;
    t.key_down_event(Key::HardDrop, true, 0);
    t.key_down_event(Key::RotateClockwise, true, 0);
    assert_eq!(t.current_piece, before);
    assert_eq!(count(&t.board), 0);
}

#[test]
fn hold_swaps_in_a_new_piece_then_waits_for_a_lock() {
    let mut t = game(4);
    t.update(0);
    let first = t.current_piece.unwrap();
    assert_eq!(t.hold, (false, None));
    t.key_down_event(Key::Hold, false, 0);
    assert_eq!(t.hold, (true, Some(first.kind)));
    let second = t.current_piece.unwrap();
    assert_eq!((second.column, second.row, second.rotation), (SPAWN_COLUMN, SPAWN_ROW, 0));
    t.key_down_event(Key::Left, false, 0);
    let moved = t.current_piece.unwrap();
    t.key_down_event(Key::Hold, false, 0);
    assert_eq!(t.current_piece, Some(moved));
    assert_eq!(t.hold, (true, Some(first.kind)));
}

#[test]
fn hold_exchanges_with_the_held_kind_after_a_lock() {
    let mut t = game(4);
    t.update(0);
    let first = t.current_piece.unwrap().kind;
    t.switch_hold();
    t.key_down_event(Key::HardDrop, false, 0);
    t.update(0);
    let mut third = t.current_piece.unwrap();
    third.column = 0;
    third.row = 10;
    third.rotation = 1;
    t.current_piece = Some(third);
    t.switch_hold();
    assert_eq!(
        t.current_piece,
        Some(Piece { kind: first, column: SPAWN_COLUMN, row: SPAWN_ROW, rotation: 0 })
    );
    assert_eq!(t.hold, (true, Some(third.kind)));
}

#[test]
fn horizontal_keys_step_and_arm_a_slide() {
    let mut t = game(6);
    t.update(0);
    let start = t.current_piece.unwrap();
    t.key_down_event(Key::Left, false, 100);
    assert_eq!(t.current_piece.unwrap().column, start.column - 1);
    assert_eq!(t.das_time, Some((100 + DAS_DELAY, false)));
    t.key_down_event(Key::Right, false, 200);
    assert_eq!(t.current_piece.unwrap().column, start.column);
    assert_eq!(t.das_time, Some((200 + DAS_DELAY, true)));
}

#[test]
fn releasing_only_disarms_the_same_direction() {
    let mut t = game(6);
    t.update(0);
    t.key_down_event(Key::Left, false, 0);
    t.key_up_event(Key::Right);
    assert_eq!(t.das_time, Some((DAS_DELAY, false)));
    t.key_up_event(Key::Left);
    assert_eq!(t.das_time, None);
}

#[test]
fn armed_slide_fires_with_the_next_tick() {
    let mut t = game(6);
    t.update(0);
    t.key_down_event(Key::Left, false, 0);
    t.update(FIRST_TICK);
    let p = t.current_piece.unwrap();
    assert_eq!(p.column, 0);
    assert_eq!(p.row, SPAWN_ROW - 1);
    assert_eq!(t.das_time, None);
}

#[test]
fn rotation_keys_turn_the_piece() {
    let mut t = game(8);
    t.update(0);
    t.key_down_event(Key::RotateClockwise, false, 0);
    assert_eq!(t.current_piece.unwrap().rotation, 1);
    t.key_down_event(Key::RotateCounterclockwise, false, 0);
    t.key_down_event(Key::RotateCounterclockwise, false, 0);
    assert_eq!(t.current_piece.unwrap().rotation, 3);
}

#[test]
fn ghost_shows_the_landing_position() {
    let mut t = game(8);
    assert_eq!(t.ghost(), None);
    t.update(0);
    let p = t.current_piece.unwrap();
    let g = t.ghost().unwrap();
    assert_eq!((g.kind, g.column, g.rotation), (p.kind, p.column, p.rotation));
    assert_eq!(g.row, 0);
}

#[test]
fn random_placement_drops_a_piece_within_the_walls() {
    let mut t = game(12);
    let mut far_right = false;
    let mut upright = false;
    for _ in 0..40 {
        t.board = Board::new();
        t._place_random();
        assert_eq!(count(&t.board), 4);
        for r in 0..20 {
            for c in 0..10 {
                if t.board.cell(r, c).is_some() {
                    far_right |= c >= 4;
                    upright |= r >= 2;
                }
            }
        }
    }
    // Some column other than 0 and some rotation other than 0 were drawn.
    assert!(far_right);
    assert!(upright);
}

fn next_random(t: &Tetris) -> u64 {
    t.rng.clone().gen::<u64>()
}

#[test]
fn inputs_that_deal_nothing_leave_the_random_source_alone() {
    let mut t = game(21);
    t.update(0);
    let before = next_random(&t);
    t.key_down_event(Key::HardDrop, true, 0);
    t.key_down_event(Key::Left, false, 0);
    t.key_up_event(Key::Left);
    t.key_up_event(Key::Right);
    t.key_down_event(Key::RotateClockwise, false, 0);
    t.key_down_event(Key::HardDrop, false, 0);
    assert_eq!(next_random(&t), before);
    // The current bag still holds kinds, so dealing draws nothing random.
    t.update(0);
    assert_eq!(next_random(&t), before);
}
