use tic_tac_toe::game::{ActionError, Event, Game, MarkSpaceError, Player, Status};
use tic_tac_toe::interface::cli::{answer_line, prompt_move, run, show_turn};
use tic_tac_toe::interface::GameMessage;
use tic_tac_toe::ui;

fn text(m: &GameMessage) -> String {
    match m {
        GameMessage::Update { message, .. } => message.clone(),
        GameMessage::GameOver { message, .. } => message.clone(),
        GameMessage::Error { message } => message.clone(),
        GameMessage::Quit { message } => message.clone(),
    }
}

#[test]
fn from_event_names_whose_turn_it_is() {
    let mut game = Game::new();
    game.make_move(0).unwrap();
    let m = GameMessage::from_event(&game, &Event::BoardUpdate);
    assert_eq!(text(&m), "Player O's turn");
    match m {
        GameMessage::Update { board, .. } => assert_eq!(board[0], Some(Player::X)),
        _ => panic!("expected an update"),
    }
}

#[test]
fn from_event_texts() {
    let game = Game::new();
    let m = GameMessage::from_event(&game, &Event::MoveError(MarkSpaceError::SpaceTaken));
    assert_eq!(text(&m), "Illegal move: SpaceTaken");
    let m = GameMessage::from_event(&game, &Event::MoveError(MarkSpaceError::OutOfBounds));
    assert_eq!(text(&m), "Illegal move: OutOfBounds");
    let m = GameMessage::from_event(&game, &Event::Quit);
    assert!(matches!(m, GameMessage::Quit { .. }));
    assert_eq!(text(&m), "Game exited.");
    let m = GameMessage::from_event(&game, &Event::GameOver(Status::Won(Player::O)));
    assert_eq!(text(&m), "Player O wins!");
    assert!(matches!(m, GameMessage::GameOver { winner: Some(Player::O), .. }));
    let m = GameMessage::from_event(&game, &Event::GameOver(Status::Draw));
    assert_eq!(text(&m), "It's a draw!");
    assert!(matches!(m, GameMessage::GameOver { winner: None, .. }));
    let m = GameMessage::from_event(&game, &Event::GameOver(Status::InProgress));
    assert_eq!(text(&m), "");
}

#[test]
fn from_error_texts() {
    let m = GameMessage::from_error(&ActionError::NotANumber);
    assert_eq!(text(&m), "Please enter a valid digit (1-9).");
    let m = GameMessage::from_error(&ActionError::OutOfRange);
    assert_eq!(text(&m), "Number is out of bounds! Use 1-9.");
}

#[test]
fn prompt_text_is_exact() {
    let mut out = Vec::new();
    prompt_move(&mut out, Player::O).unwrap();
    assert_eq!(String::from_utf8(out).unwrap(), "Player O, enter your move (1-9):\n");
}

#[test]
fn board_text_is_exact() {
    let mut board = [None; 9];
    board[2] = Some(Player::O);
    board[8] = Some(Player::X);
    let mut out = Vec::new();
    tic_tac_toe::interface::cli::render_board(&mut out, &board).unwrap();
    assert_eq!(
        String::from_utf8(out).unwrap(),
        "\n 1 | 2 | O \n-----------\n 4 | 5 | 6 \n-----------\n 7 | 8 | X \n\n"
    );
}

#[test]
fn display_rows_are_exact() {
    let mut out = Vec::new();
    tic_tac_toe::display::render_board(&mut out, &[None; 9]);
    assert_eq!(
        String::from_utf8(out).unwrap(),
        " 1 | 2 | 3 \n 4 | 5 | 6 \n 7 | 8 | 9 \n"
    );
}

#[test]
fn ui_reports_are_exact() {
    let mut out = Vec::new();
    ui::report_invalid_input(&mut out).unwrap();
    ui::report_error(&mut out, MarkSpaceError::SpaceTaken).unwrap();
    ui::announce_winner(&mut out, Player::X).unwrap();
    ui::announce_draw(&mut out).unwrap();
    ui::announce_quit(&mut out).unwrap();
    ui::prompt_move(&mut out, Player::X).unwrap();
    assert_eq!(
        String::from_utf8(out).unwrap(),
        "Invalid input. Please enter a number between 1 and 9.\n\
         Error: SpaceTaken. Try again.\n\
         Player X wins!\n\
         It's a Draw!\n\
         Game exited.\n\
         Player X, enter your move (1-9):\n"
    );
}

#[test]
fn a_session_shows_each_turn() {
    let mut out = Vec::new();
    run("5\nq\n", &mut out).unwrap();
    let empty = "\n 1 | 2 | 3 \n-----------\n 4 | 5 | 6 \n-----------\n 7 | 8 | 9 \n\n";
    let after = "\n 1 | 2 | 3 \n-----------\n 4 | X | 6 \n-----------\n 7 | 8 | 9 \n\n";
    let expected = format!(
        "{}Player X, enter your move (1-9):\nPlayer O's turn\n{}Player O, enter your move (1-9):\nGame exited.\n",
        empty, after
    );
    assert_eq!(String::from_utf8(out).unwrap(), expected);
}

#[test]
fn a_session_ends_when_input_runs_out() {
    let mut out = Vec::new();
    run("5", &mut out).unwrap();
    let result = String::from_utf8(out).unwrap();
    assert!(result.ends_with("Player O, enter your move (1-9):\nGame exited.\n"));
}

#[test]
fn a_session_reports_refused_moves_and_draws() {
    let mut out = Vec::new();
    run("1\n2\n2\n3\n10\n5\n4\n7\n6\n9\n8\n", &mut out).unwrap();
    let result = String::from_utf8(out).unwrap();
    assert!(result.contains("Illegal move: SpaceTaken\n"));
    assert!(result.contains("Number is out of bounds! Use 1-9.\n"));
    assert!(result.ends_with("It's a draw!\n"));
}

#[test]
fn one_turn_at_a_time() {
    let mut game = Game::new();
    let mut out = Vec::new();
    show_turn(&game, &mut out).unwrap();
    assert!(answer_line(&mut game, "1\n", &mut out).unwrap());
    assert!(!answer_line(&mut game, "", &mut out).unwrap());
    let result = String::from_utf8(out).unwrap();
    assert!(result.ends_with("Player O's turn\nGame exited.\n"));
    assert_eq!(game.board()[0], Some(Player::X));
}

#[test]
fn every_session_closes_on_a_closing_line() {
    let inputs = [
        "", "7", "abc", "1\n4\n2\n5\n3\n", "4\n1\n5\n2\n7\n3\n", "1\n2\n3\n5\n4\n7\n6\n9\n8\n",
        "q\n", "1\n1\n1\n", "10\n0\nzz",
    ];
    for input in inputs {
        let mut out = Vec::new();
        run(input, &mut out).unwrap();
        let text = String::from_utf8(out).unwrap();
        let closes = ["Game exited.", "Player X wins!", "Player O wins!", "It's a draw!"]
            .iter()
            .any(|f| text.ends_with(&format!("\n{}\n", f)));
        assert!(closes, "input {:?} gave {:?}", input, text);
        let turns = text.matches("enter your move").count();
        assert!(turns <= input.lines().count() + 1, "input {:?}", input);
    }
}
