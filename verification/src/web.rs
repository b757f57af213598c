//! An earlier web protocol: every reply carries the board, an optional notice and an
//! optional error.
use crate::game::{action_of, move_outcome, Action, ActionError, Board, Game, MarkSpaceError, Status};
use crate::game::{
    board_after_action, lemma_winning_move_wins_for_mover, player_after_action, Player,
};
use crate::game::state::status_of;
use crate::interface::win_text;
use vstd::prelude::*;

verus! {

/// A reply to the web players.
pub struct ServerMessage {
    pub board: Board,
    pub msg: Option<String>,
    pub err: Option<String>,
}

/// A reply, with its texts as sequences of characters.
pub struct ServerView {
    pub board: Board,
    pub msg: Option<Seq<char>>,
    pub err: Option<Seq<char>>,
}

impl View for ServerMessage {
    type V = ServerView;

    open spec fn view(&self) -> ServerView {
        ServerView {
            board: self.board,
            msg: match self.msg {
                Some(m) => Some(m@),
                None => None,
            },
            err: match self.err {
                Some(e) => Some(e@),
                None => None,
            },
        }
    }
}

/// The name of an error that a command could not be read for, as `Debug` shows it.
pub open spec fn action_error_name(e: ActionError) -> Seq<char> {
    match e {
        ActionError::NotANumber => "NotANumber"@,
        ActionError::OutOfRange => "OutOfRange"@,
    }
}

/// The notice and the error that answer a move with this outcome.
pub open spec fn move_reply(outcome: Result<Status, MarkSpaceError>) -> (
    Option<Seq<char>>,
    Option<Seq<char>>,
) {
    match outcome {
        Ok(Status::Won(p)) => (Some("Player "@ + seq![p.symbol()] + " wins!"@), None),
        Ok(Status::Draw) => (Some("It's a Draw!"@), None),
        Ok(Status::InProgress) => (None, None),
        Err(e) => (None, Some("Error: "@ + e.name())),
    }
}

/// The notice and the error that answer a line of text, and whether the sender stays:
/// a move is made as `make_move` says; quitting is announced and ends the session of
/// the sender; an unreadable command is reported.
pub open spec fn text_reply(b: Seq<Option<Player>>, p: Player, text: Seq<char>) -> (
    Option<Seq<char>>,
    Option<Seq<char>>,
    bool,
) {
    match action_of(text) {
        Ok(Action::Move(idx)) => {
            let r = move_reply(move_outcome(b, p, idx as int));
            (r.0, r.1, true)
        },
        Ok(Action::Quit) => (Some("A player has left the game."@), None, false),
        Err(e) => (None, Some("Invalid move: "@ + action_error_name(e)), true),
    }
}

impl ServerMessage {
    /// The reply a player gets on connecting.
    pub fn started(game: &Game) -> (m: ServerMessage)
        ensures
            m@ == (ServerView {
                board: game.state.board,
                msg: Some("Game Started!"@),
                err: None,
            }),
    {
        ServerMessage {
            board: *game.board(),
            msg: Some(String::from_str("Game Started!")),
            err: None,
        }
    }

    /// Answers a line of text sent by a player, changing the game as the command says.
    /// The second result says whether the sender's session goes on.
    pub fn answer(game: &mut Game, text: &str) -> (r: (ServerMessage, bool))
        ensures
            ({
                let b = old(game).state.board@;
                let p = old(game).state.current_player;
                let reply = text_reply(b, p, text@);
                &&& r.0@ == (ServerView { board: final(game).state.board, msg: reply.0, err: reply.1 })
                &&& r.1 == reply.2
                &&& match action_of(text@) {
                    Ok(a) => final(game).state.board@ == board_after_action(b, p, a)
                        && final(game).state.current_player == player_after_action(b, p, a),
                    Err(_) => *final(game) == *old(game),
                }
            }),
            action_of(text@) matches Ok(Action::Move(idx)) ==> (move_outcome(
                old(game).state.board@,
                old(game).state.current_player,
                idx as int,
            ) matches Ok(Status::Won(w)) ==> {
                &&& r.0@.msg == Some(win_text(w))
                &&& r.0@.err is None
                &&& status_of(final(game).state.board@) == Status::Won(w)
                &&& status_of(old(game).state.board@) == Status::InProgress ==> w
                    == old(game).state.current_player
            }),
    {
        proof {
            if let Ok(Action::Move(idx)) = action_of(text@) {
                if status_of(old(game).state.board@) == Status::InProgress && move_outcome(
                    old(game).state.board@,
                    old(game).state.current_player,
                    idx as int,
                ) matches Ok(Status::Won(_)) {
                    lemma_winning_move_wins_for_mover(
                        old(game).state.board@,
                        old(game).state.current_player,
                        idx as int,
                    );
                }
            }
        }
        match Action::parse(text) {
            Ok(Action::Move(idx)) => {
                let result = game.make_move(idx);
                let (msg, err) = match result {
                    Ok(Status::Won(p)) => {
                        let mut m = String::from_str("Player ");
                        m.append(p.symbol_str());
                        m.append(" wins!");
                        (Some(m), None)
                    },
                    Ok(Status::Draw) => (Some(String::from_str("It's a Draw!")), None),
                    Ok(Status::InProgress) => (None, None),
                    Err(e) => {
                        let mut m = String::from_str("Error: ");
                        m.append(e.name_str());
                        (None, Some(m))
                    },
                };
                (ServerMessage { board: *game.board(), msg, err }, true)
            },
            Ok(Action::Quit) => (
                ServerMessage {
                    board: *game.board(),
                    msg: Some(String::from_str("A player has left the game.")),
                    err: None,
                },
                false,
            ),
            Err(e) => {
                let name = match e {
                    ActionError::NotANumber => "NotANumber",
                    ActionError::OutOfRange => "OutOfRange",
                };
                let mut m = String::from_str("Invalid move: ");
                m.append(name);
                (ServerMessage { board: *game.board(), msg: None, err: Some(m) }, true)
            },
        }
    }
}

} // verus!
