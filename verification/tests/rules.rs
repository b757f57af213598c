use tic_tac_toe::game::{Action, Event, Game, MarkSpaceError, Player, State, Status};

fn count(board: &[Option<Player>; 9], p: Player) -> usize {
    board.iter().filter(|c| **c == Some(p)).count()
}

#[test]
fn next_alternates_between_players() {
    assert_eq!(Player::X.next(), Player::O);
    assert_eq!(Player::O.next(), Player::X);
    assert_eq!(Player::X.next().next(), Player::X);
}

#[test]
fn player_shows_its_letter() {
    assert_eq!(Player::X.to_string(), "X");
    assert_eq!(Player::O.to_string(), "O");
}

#[test]
fn turns_alternate_through_a_game() {
    let mut game = Game::new();
    for idx in [4, 0, 8, 2, 1, 7, 6, 3, 5] {
        assert_eq!(game.state.status(), Status::InProgress);
        let x = count(game.board(), Player::X);
        let o = count(game.board(), Player::O);
        if game.current_player() == Player::X {
            assert_eq!(x, o);
        } else {
            assert_eq!(x, o + 1);
        }
        // a refused move in between changes nothing
        let before = *game.board();
        assert_eq!(game.make_move(idx + 9), Err(MarkSpaceError::OutOfBounds));
        assert_eq!(*game.board(), before);
        let status = game.make_move(idx).unwrap();
        if status != Status::InProgress {
            break;
        }
    }
    assert_eq!(game.state.status(), Status::Draw);
    assert_eq!(count(game.board(), Player::X), 5);
    assert_eq!(count(game.board(), Player::O), 4);
    assert_eq!(game.current_player(), Player::X);
}

#[test]
fn marked_space_stays_marked() {
    let mut game = Game::new();
    game.make_move(4).unwrap();
    let before = *game.board();
    assert_eq!(game.make_move(4), Err(MarkSpaceError::SpaceTaken));
    assert_eq!(*game.board(), before);
    assert_eq!(game.board()[4], Some(Player::X));
    assert_eq!(game.current_player(), Player::O);
}

#[test]
fn process_action_reports_each_outcome() {
    let mut game = Game::new();
    assert_eq!(game.process_action(Action::Quit), Event::Quit);
    assert_eq!(*game.board(), [None; 9]);
    assert_eq!(game.process_action(Action::Move(0)), Event::BoardUpdate);
    assert_eq!(
        game.process_action(Action::Move(0)),
        Event::MoveError(MarkSpaceError::SpaceTaken)
    );
    assert_eq!(
        game.process_action(Action::Move(9)),
        Event::MoveError(MarkSpaceError::OutOfBounds)
    );
    assert_eq!(game.process_action(Action::Move(3)), Event::BoardUpdate);
    assert_eq!(game.process_action(Action::Move(1)), Event::BoardUpdate);
    assert_eq!(game.process_action(Action::Move(4)), Event::BoardUpdate);
    assert_eq!(
        game.process_action(Action::Move(2)),
        Event::GameOver(Status::Won(Player::X))
    );
    assert_eq!(game.current_player(), Player::X);
}

#[test]
fn first_complete_line_wins() {
    // both a row of X and a row of O: the top row is found first
    let mut state = State::new();
    for i in [0, 1, 2] {
        state.board[i] = Some(Player::X);
    }
    for i in [3, 4, 5] {
        state.board[i] = Some(Player::O);
    }
    assert_eq!(state.check_winner(), Some(Player::X));
    assert_eq!(state.status(), Status::Won(Player::X));
}

#[test]
fn full_board_with_a_line_is_won() {
    let mut state = State::new();
    let marks = [
        Player::X, Player::X, Player::X,
        Player::O, Player::O, Player::X,
        Player::X, Player::O, Player::O,
    ];
    for (i, p) in marks.iter().enumerate() {
        state.board[i] = Some(*p);
    }
    assert_eq!(state.status(), Status::Won(Player::X));
}

#[test]
fn next_turn_passes_the_turn() {
    let mut state = State::new();
    assert_eq!(state.current_player(), Player::X);
    state.next_turn();
    assert_eq!(state.current_player(), Player::O);
    assert_eq!(*state.board(), [None; 9]);
}
