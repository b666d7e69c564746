use vstd::prelude::*;
use vstd::string::StringExecFns;
use crate::board::Board;
use crate::board::GameState;
use crate::board::Sign;
use crate::board::TileState;
use crate::input::accepted;
use crate::input::accepted_value;
use crate::input::validate_input;

verus! {

/// One participant, identified by the sign it plays. Two players exist per
/// game, one per sign; neither changes after creation.
#[derive(Debug)]
pub struct Player {
    pub sign: Sign,
}

/// The front-end seam: everything the game needs from the outside world.
/// Rendering, input devices and the choice of who starts live behind this
/// trait; a front end implements it and drives the turn loop with it,
/// feeding each raw input to `try_move` and performing what comes back:
/// re-prompt through `retrieve_input` on an error, `on_play` on a move,
/// `on_end` followed by a last `show_board` once the game is over.
pub trait Interface {
    /// Pick the player who moves first, out of the two offered.
    fn choose_first_player<'a>(&self, players: &'a [Player]) -> &'a Player;

    /// Ask for one raw move input, using `message` as the prompt.
    fn retrieve_input(&self, message: &str) -> String;

    /// Told, after each successful move, who played which cell.
    fn on_play(&self, player: &Player, index: u8);

    /// Shown the current board; display only.
    fn show_board(&self, board: &Board);

    /// Told the final classification, once, after play ends.
    fn on_end(&self, game_state: GameState);
}

/// One attempt of a turn by `sign`, from one raw input: when the input
/// names a cell that is still empty, mark it and return its index; when the
/// input is malformed, or the named cell is occupied, return the message to
/// re-prompt with and leave the board unchanged. The turn loop repeats this
/// with fresh input for as long as it answers with a message.
pub fn try_move(board: &mut Board, sign: Sign, input: &String) -> (r: Result<u8, &'static str>)
    requires
        old(board).wf(),
    ensures
        final(board).wf(),
        accepted(input@) && old(board)@[accepted_value(input@) - 1] is Empty ==> r == Ok::<
            u8,
            &'static str,
        >(accepted_value(input@) as u8) && final(board)@ == old(board)@.update(
            accepted_value(input@) - 1,
            TileState::Marked(sign),
        ),
        accepted(input@) && old(board)@[accepted_value(input@) - 1] is Marked ==> final(board)@
            == old(board)@ && (r matches Err(m) && m@
            == "This tile is already marked. Please try another tile"@),
        !accepted(input@) ==> final(board)@ == old(board)@ && (r matches Err(m) && m@
            == "Please enter a number between 1 and 9"@),
{
    match validate_input(input) {
        Ok(index) => board.set_tile(index, sign),
        Err(e) => Err(e),
    }
}

/// The prompt that opens a turn, naming whose turn it is.
pub fn turn_prompt(sign: Sign) -> (r: String)
    ensures
        sign is O ==> r@ == "O"@ + ", please enter a tile number (1-9):"@,
        sign is X ==> r@ == "X"@ + ", please enter a tile number (1-9):"@,
{
    let mut prompt = String::from_str(sign.label());
    prompt.append(", please enter a tile number (1-9):");
    prompt
}

} // verus!
