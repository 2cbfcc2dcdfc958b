//! A falling-block puzzle engine: shape geometry, the playing field, piece
//! movement, a fair piece sequencer and the timing state machine around them.

pub mod shapes;
pub mod piece;
pub mod board;
pub mod movement;
pub mod laws;
pub mod bag;
pub mod game;
