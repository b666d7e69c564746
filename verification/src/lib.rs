use vstd::prelude::*;

mod board;
mod game;
mod input;

pub use board::Board;
pub use board::GameState;
pub use board::Sign;
pub use board::TileState;
pub use game::Interface;
pub use game::Player;
pub use game::try_move;
pub use game::turn_prompt;
pub use input::validate_input;
