use tictactoe::Board;
use tictactoe::GameState;
use tictactoe::Sign;
use tictactoe::TileState;

#[test]
fn from_str_works() {
    let board = Board::from_str("OX X OO X");

    assert_eq!(board.get_tile(1), TileState::Marked(Sign::O));
    assert_eq!(board.get_tile(2), TileState::Marked(Sign::X));
    assert_eq!(board.get_tile(3), TileState::Empty);
    assert_eq!(board.get_tile(4), TileState::Marked(Sign::X));
    assert_eq!(board.get_tile(5), TileState::Empty);
    assert_eq!(board.get_tile(6), TileState::Marked(Sign::O));
    assert_eq!(board.get_tile(7), TileState::Marked(Sign::O));
    assert_eq!(board.get_tile(8), TileState::Empty);
    assert_eq!(board.get_tile(9), TileState::Marked(Sign::X));
}

#[test]
fn horizontal_win() {
    let board1 = Board::from_str("OOO      ");
    let board2 = Board::from_str("   OOO   ");
    let board3 = Board::from_str("      OOO");

    assert_eq!(board1.get_winner(), Some(Sign::O));
    assert_eq!(board2.get_winner(), Some(Sign::O));
    assert_eq!(board3.get_winner(), Some(Sign::O));

    assert_eq!(board1.get_game_state(), GameState::Won(Sign::O));
    assert_eq!(board2.get_game_state(), GameState::Won(Sign::O));
    assert_eq!(board3.get_game_state(), GameState::Won(Sign::O));
}

#[test]
fn vertical_win() {
    let board1 = Board::from_str("O  O  O  ");
    let board2 = Board::from_str(" O  O  O ");
    let board3 = Board::from_str("  O  O  O");

    assert_eq!(board1.get_winner(), Some(Sign::O));
    assert_eq!(board2.get_winner(), Some(Sign::O));
    assert_eq!(board3.get_winner(), Some(Sign::O));

    assert_eq!(board1.get_game_state(), GameState::Won(Sign::O));
    assert_eq!(board2.get_game_state(), GameState::Won(Sign::O));
    assert_eq!(board3.get_game_state(), GameState::Won(Sign::O));
}

#[test]
fn diagonal_win() {
    let board1 = Board::from_str("O   O   O");
    let board2 = Board::from_str("  O O O  ");

    assert_eq!(board1.get_winner(), Some(Sign::O));
    assert_eq!(board2.get_winner(), Some(Sign::O));

    assert_eq!(board1.get_game_state(), GameState::Won(Sign::O));
    assert_eq!(board2.get_game_state(), GameState::Won(Sign::O));
}

#[test]
fn board_full() {
    let board = Board::from_str("OXOXXOXOX");

    assert!(board.is_full());
    assert_eq!(board.get_game_state(), GameState::Full);
}

#[test]
fn board_not_full() {
    let board = Board::from_str("OXOX OXOX");

    assert!(!board.is_full());
    assert_eq!(board.get_game_state(), GameState::NotOver);
}

#[test]
fn it_sets_tile() {
    let mut board = Board::new();

    assert!(board.set_tile(1, Sign::O).is_ok());
    assert_eq!(board.get_tile(1), TileState::Marked(Sign::O));
}

#[test]
fn it_doesnt_set_tile() {
    let mut board = Board::from_str("O        ");

    assert!(board.set_tile(1, Sign::X).is_err());
    assert_eq!(board.get_tile(1), TileState::Marked(Sign::O));
}

#[test]
fn fresh_board_is_all_empty_and_not_over() {
    let board = Board::new();

    for i in 1..=9u8 {
        assert_eq!(board.get_tile(i), TileState::Empty);
    }
    assert!(!board.is_full());
    assert_eq!(board.get_winner(), None);
    assert_eq!(board.get_game_state(), GameState::NotOver);
}

#[test]
fn all_eight_winning_triples_are_detected() {
    let pictures = [
        "XXX      ", "   XXX   ", "      XXX", "X  X  X  ", " X  X  X ", "  X  X  X",
        "X   X   X", "  X X X  ",
    ];
    for picture in pictures {
        let board = Board::from_str(picture);
        assert_eq!(board.get_winner(), Some(Sign::X));
        assert_eq!(board.get_game_state(), GameState::Won(Sign::X));
    }
}

#[test]
fn win_takes_precedence_over_full() {
    let board = Board::from_str("OOOXXOXOX");

    assert!(board.is_full());
    assert_eq!(board.get_winner(), Some(Sign::O));
    assert_eq!(board.get_game_state(), GameState::Won(Sign::O));
}

#[test]
fn occupied_cell_reports_specific_error() {
    let mut board = Board::new();
    assert_eq!(board.set_tile(5, Sign::O), Ok(5));

    let second = board.set_tile(5, Sign::X);
    assert_eq!(
        second,
        Err("This tile is already marked. Please try another tile")
    );
    assert_eq!(board.get_tile(5), TileState::Marked(Sign::O));
}

#[test]
fn set_tile_succeeds_on_every_empty_cell() {
    for i in 1..=9u8 {
        let mut board = Board::new();
        assert_eq!(board.set_tile(i, Sign::X), Ok(i));
        assert_eq!(board.get_tile(i), TileState::Marked(Sign::X));
        for j in 1..=9u8 {
            if j != i {
                assert_eq!(board.get_tile(j), TileState::Empty);
            }
        }
    }
}

#[test]
fn sign_other_alternates() {
    assert_eq!(Sign::O.other(), Sign::X);
    assert_eq!(Sign::X.other(), Sign::O);
    assert_eq!(Sign::O.label(), "O");
    assert_eq!(Sign::X.label(), "X");
}
