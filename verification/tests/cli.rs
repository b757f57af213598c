use tic_tac_toe::game::{Action, ActionError, Player};
use tic_tac_toe::interface::cli::{get_action, render_board, run};

#[test]
fn cli_renders_an_empty_board() {
    let board = [None; 9];
    let mut buffer = Vec::new();

    render_board(&mut buffer, &board).expect("Should render a board with just numbers");

    let output = String::from_utf8(buffer).unwrap();
    assert!(output.contains(" 1 | 2 | 3 "));
    assert!(output.contains(" 4 | 5 | 6 "));
    assert!(output.contains(" 7 | 8 | 9 "));
}

#[test]
fn cli_renders_board_with_both_players() {
    let mut board = [None; 9];
    board[0] = Some(Player::X);
    board[4] = Some(Player::O);

    let mut buffer = Vec::new();
    render_board(&mut buffer, &board).expect("Should render an X and an O mark");

    let output = String::from_utf8(buffer).unwrap();

    assert!(output.contains(" X | 2 | 3 "));
    assert!(output.contains(" 4 | O | 6 "));
    assert!(output.contains(" 7 | 8 | 9 "));
}

#[test]
fn cli_returns_move_action_if_input_passes_validation() {
    let input = "5\n";
    let result = get_action(input).unwrap();

    assert_eq!(result, Action::Move(4));
}

#[test]
fn returns_action_error_if_oob_or_input_is_invalid() {
    let scenarios = [
        ("Out of Bounds", "9000\n", ActionError::OutOfRange),
        ("Invalid Input", "potato\n", ActionError::NotANumber),
    ];

    for (name, input_text, expected) in scenarios {
        let result = get_action(input_text).unwrap_err();
        assert_eq!(result, expected, "scenario \"{}\"", name);
    }
}

#[test]
fn cli_returns_quit_action_on_quit_command_or_eof() {
    let scenarios = [
        ("Quit", "quit\n"),
        ("Quit Shortcut", "q\n"),
        ("End of File", ""),
    ];

    for (name, input_text) in scenarios {
        let result = get_action(input_text).unwrap();
        assert_eq!(result, Action::Quit, "scenario \"{}\"", name);
    }
}

#[test]
fn runs_until_game_is_complete() {
    // X | X | X
    // O | O |
    //   |   |
    let input = b"1\n4\n2\n5\n3\n";
    let mut output = Vec::new();

    let _ = run(std::str::from_utf8(input).unwrap(), &mut output);

    let result = String::from_utf8(output).unwrap();

    assert!(
        result.contains("Player X wins!"),
        "should announce X as the winner"
    );
}

#[test]
fn retries_until_input_is_valid() {
    let input = b"abc\n1\n1\n4\n2\n5\n3\n";
    let mut output = Vec::new();

    let _ = run(std::str::from_utf8(input).unwrap(), &mut output);

    let result = String::from_utf8(output).unwrap();

    assert!(
        result.contains("Please enter a valid digit"),
        "should have warned about invalid input"
    );
    assert!(
        result.contains("Player X wins!"),
        "should continue to completion after errors"
    );
}

#[test]
fn quits_on_command() {
    let input = b"quit\n";
    let mut output = Vec::new();
    let _ = run(std::str::from_utf8(input).unwrap(), &mut output);

    let result = String::from_utf8(output).unwrap();
    assert!(result.contains("Game exited."));
}
