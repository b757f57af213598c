use tic_tac_toe::game::{Game, Player};
use tic_tac_toe::interface::web::session::{answer_text, greeting, leave_seat};
use tic_tac_toe::interface::web::types::{Seats, WebAction};
use tic_tac_toe::interface::GameMessage;
use tic_tac_toe::web::ServerMessage;

fn text(m: &GameMessage) -> String {
    match m {
        GameMessage::Update { message, .. } => message.clone(),
        GameMessage::GameOver { message, .. } => message.clone(),
        GameMessage::Error { message } => message.clone(),
        GameMessage::Quit { message } => message.clone(),
    }
}

#[test]
fn seats_are_claimed_once_and_not_twice_by_one_user() {
    let mut game = Game::new();
    let mut seats = Seats::default();
    let m = WebAction::Claim(Player::X).execute(1, &mut game, &mut seats).unwrap();
    assert_eq!(text(&m), "Player X joined!");
    assert_eq!(seats.x_owner, Some(1));
    // user 1 may not take O as well
    assert!(WebAction::Claim(Player::O).execute(1, &mut game, &mut seats).is_none());
    assert_eq!(seats.o_owner, None);
    // nor may user 2 take X
    assert!(WebAction::Claim(Player::X).execute(2, &mut game, &mut seats).is_none());
    assert_eq!(seats.x_owner, Some(1));
    let m = WebAction::Claim(Player::O).execute(2, &mut game, &mut seats).unwrap();
    assert_eq!(text(&m), "Player O joined!");
    assert_eq!(seats.o_owner, Some(2));
}

#[test]
fn only_the_seat_holder_moves() {
    let mut game = Game::new();
    let mut seats = Seats { x_owner: Some(1), o_owner: Some(2) };
    // O tries to move on X's turn: ignored
    assert!(WebAction::Move(5).execute(2, &mut game, &mut seats).is_none());
    assert_eq!(*game.board(), [None; 9]);
    // X moves on space 1 (counted from 1)
    let m = WebAction::Move(1).execute(1, &mut game, &mut seats).unwrap();
    assert_eq!(text(&m), "Player O's turn");
    assert_eq!(game.board()[0], Some(Player::X));
    // X again, out of turn: ignored
    assert!(WebAction::Move(2).execute(1, &mut game, &mut seats).is_none());
    let m = WebAction::Move(4).execute(2, &mut game, &mut seats).unwrap();
    assert_eq!(game.board()[3], Some(Player::O));
    assert_eq!(text(&m), "Player X's turn");
    let m = WebAction::Move(1).execute(1, &mut game, &mut seats).unwrap();
    assert_eq!(text(&m), "Illegal move: SpaceTaken");
    assert!(WebAction::Quit.execute(1, &mut game, &mut seats).is_none());
}

#[test]
fn leaving_frees_the_seat() {
    let game = Game::new();
    let mut seats = Seats { x_owner: Some(1), o_owner: Some(2) };
    let m = leave_seat(2, &game, &mut seats).unwrap();
    assert_eq!(text(&m), "Player O left.");
    assert_eq!(seats.o_owner, None);
    assert!(leave_seat(3, &game, &mut seats).is_none());
    let m = leave_seat(1, &game, &mut seats).unwrap();
    assert_eq!(text(&m), "Player X left.");
    assert_eq!(seats, Seats::default());
}

#[test]
fn greeting_shows_the_board() {
    let mut game = Game::new();
    game.make_move(8).unwrap();
    match greeting(&game) {
        GameMessage::Update { board, message } => {
            assert_eq!(message, "Game Started!");
            assert_eq!(board[8], Some(Player::X));
        }
        _ => panic!("expected an update"),
    }
}

#[test]
fn server_message_answers() {
    let mut game = Game::new();
    let m = ServerMessage::started(&game);
    assert_eq!(m.msg.as_deref(), Some("Game Started!"));
    let (m, stay) = ServerMessage::answer(&mut game, "1");
    assert!(stay && m.msg.is_none() && m.err.is_none());
    assert_eq!(m.board[0], Some(Player::X));
    let (m, _) = ServerMessage::answer(&mut game, "1");
    assert_eq!(m.err.as_deref(), Some("Error: SpaceTaken"));
    let (m, _) = ServerMessage::answer(&mut game, "zz");
    assert_eq!(m.err.as_deref(), Some("Invalid move: NotANumber"));
    let (m, _) = ServerMessage::answer(&mut game, "12");
    assert_eq!(m.err.as_deref(), Some("Invalid move: OutOfRange"));
    for t in ["4", "2", "5"] {
        ServerMessage::answer(&mut game, t);
    }
    let (m, _) = ServerMessage::answer(&mut game, "3");
    assert_eq!(m.msg.as_deref(), Some("Player X wins!"));
    let (m, stay) = ServerMessage::answer(&mut game, "quit");
    assert!(!stay);
    assert_eq!(m.msg.as_deref(), Some("A player has left the game."));
}

#[test]
fn plain_text_commands_are_answered() {
    let mut game = Game::new();
    let m = answer_text(&mut game, " 5\n");
    assert_eq!(text(&m), "Player O's turn");
    assert_eq!(game.board()[4], Some(Player::X));
    let m = answer_text(&mut game, "nine");
    assert_eq!(text(&m), "Please enter a valid digit (1-9).");
    let m = answer_text(&mut game, "Q");
    assert!(matches!(m, GameMessage::Quit { .. }));
}
