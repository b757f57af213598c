//! What the front ends tell the players, and the decisions of the terminal and web
//! front ends.
pub mod cli;
pub mod web;

use crate::game::{ActionError, Board, Event, Game, MarkSpaceError, Player, Status};
use vstd::prelude::*;

verus! {

/// A message to the players.
pub enum GameMessage {
    Update { board: Board, message: String },
    GameOver { board: Board, message: String, winner: Option<Player> },
    Error { message: String },
    Quit { message: String },
}

/// A message to the players, with its text as a sequence of characters.
pub enum MessageView {
    Update { board: Board, message: Seq<char> },
    GameOver { board: Board, message: Seq<char>, winner: Option<Player> },
    Error { message: Seq<char> },
    Quit { message: Seq<char> },
}

impl View for GameMessage {
    type V = MessageView;

    open spec fn view(&self) -> MessageView {
        match self {
            GameMessage::Update { board, message } => MessageView::Update {
                board: *board,
                message: message@,
            },
            GameMessage::GameOver { board, message, winner } => MessageView::GameOver {
                board: *board,
                message: message@,
                winner: *winner,
            },
            GameMessage::Error { message } => MessageView::Error { message: message@ },
            GameMessage::Quit { message } => MessageView::Quit { message: message@ },
        }
    }
}

/// "Player X's turn".
pub open spec fn turn_text(p: Player) -> Seq<char> {
    "Player "@ + seq![p.symbol()] + "'s turn"@
}

/// "Illegal move: SpaceTaken".
pub open spec fn illegal_move_text(e: MarkSpaceError) -> Seq<char> {
    "Illegal move: "@ + e.name()
}

/// "Player X wins!".
pub open spec fn win_text(p: Player) -> Seq<char> {
    "Player "@ + seq![p.symbol()] + " wins!"@
}

/// The text that ends a game with this status.
pub open spec fn game_over_text(s: Status) -> Seq<char> {
    match s {
        Status::Won(p) => win_text(p),
        Status::Draw => "It's a draw!"@,
        Status::InProgress => Seq::empty(),
    }
}

/// The message about an event, for the game as it stands after it.
pub open spec fn event_message(board: Board, current: Player, e: Event) -> MessageView {
    match e {
        Event::BoardUpdate => MessageView::Update { board, message: turn_text(current) },
        Event::MoveError(err) => MessageView::Error { message: illegal_move_text(err) },
        Event::Quit => MessageView::Quit { message: "Game exited."@ },
        Event::GameOver(s) => MessageView::GameOver {
            board,
            message: game_over_text(s),
            winner: match s {
                Status::Won(p) => Some(p),
                _ => None,
            },
        },
    }
}

/// The text about a command that could not be read.
pub open spec fn action_error_text(e: ActionError) -> Seq<char> {
    match e {
        ActionError::NotANumber => "Please enter a valid digit (1-9)."@,
        ActionError::OutOfRange => "Number is out of bounds! Use 1-9."@,
    }
}

/// "Player X's turn", as a string.
pub fn turn_string(p: Player) -> (s: String)
    ensures
        s@ == turn_text(p),
{
    let mut s = String::from_str("Player ");
    s.append(p.symbol_str());
    s.append("'s turn");
    s
}

/// "Player X wins!", as a string.
pub fn win_string(p: Player) -> (s: String)
    ensures
        s@ == win_text(p),
{
    let mut s = String::from_str("Player ");
    s.append(p.symbol_str());
    s.append(" wins!");
    s
}

impl GameMessage {
    /// The message about `event`, given the game as it stands after it.
    pub fn from_event(game: &Game, event: &Event) -> (m: GameMessage)
        ensures
            m@ == event_message(game.state.board, game.state.current_player, *event),
    {
        match event {
            Event::BoardUpdate => GameMessage::Update {
                board: *game.board(),
                message: turn_string(game.current_player()),
            },
            Event::MoveError(err) => {
                let mut message = String::from_str("Illegal move: ");
                message.append(err.name_str());
                GameMessage::Error { message }
            },
            Event::Quit => GameMessage::Quit { message: String::from_str("Game exited.") },
            Event::GameOver(status) => {
                let (winner, message) = match status {
                    Status::Won(p) => (Some(*p), win_string(*p)),
                    Status::Draw => (None, String::from_str("It's a draw!")),
                    Status::InProgress => (None, String::new()),
                };
                GameMessage::GameOver { board: *game.board(), message, winner }
            },
        }
    }

    /// The message about a command that could not be read.
    pub fn from_error(err: &ActionError) -> (m: GameMessage)
        ensures
            m@ == (MessageView::Error { message: action_error_text(*err) }),
    {
        let text = match err {
            ActionError::NotANumber => "Please enter a valid digit (1-9).",
            ActionError::OutOfRange => "Number is out of bounds! Use 1-9.",
        };
        GameMessage::Error { message: String::from_str(text) }
    }
}

} // verus!
