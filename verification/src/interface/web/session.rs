//! What a web session says when a user connects and when the user leaves.
use crate::game::{
    action_of, board_after_action, event_of, player_after_action, Game, Player,
};
use crate::interface::web::types::Seats;
use crate::interface::{action_error_text, event_message, GameMessage, MessageView};
use crate::text::trimmed;
use vstd::prelude::*;

verus! {

/// "Player X left.".
pub open spec fn left_text(p: Player) -> Seq<char> {
    "Player "@ + seq![p.symbol()] + " left."@
}

/// The message a user gets on connecting: the board and "Game Started!".
pub fn greeting(game: &Game) -> (m: GameMessage)
    ensures
        m@ == (MessageView::Update { board: game.state.board, message: "Game Started!"@ }),
{
    GameMessage::Update { board: *game.board(), message: String::from_str("Game Started!") }
}

/// A user leaves: the seat of `X`, or else of `O`, that the user holds is freed, and
/// the message to broadcast says so; a user without a seat leaves nothing to say.
pub fn leave_seat(user_id: usize, game: &Game, seats: &mut Seats) -> (r: Option<GameMessage>)
    ensures
        old(seats).x_owner == Some(user_id) ==> {
            &&& *final(seats) == old(seats).with_seat(Player::X, None)
            &&& r matches Some(m) && m@ == (MessageView::Update {
                board: game.state.board,
                message: left_text(Player::X),
            })
        },
        old(seats).x_owner != Some(user_id) && old(seats).o_owner == Some(user_id) ==> {
            &&& *final(seats) == old(seats).with_seat(Player::O, None)
            &&& r matches Some(m) && m@ == (MessageView::Update {
                board: game.state.board,
                message: left_text(Player::O),
            })
        },
        old(seats).x_owner != Some(user_id) && old(seats).o_owner != Some(user_id) ==> {
            &&& *final(seats) == *old(seats)
            &&& r is None
        },
        old(seats).x_owner == Some(user_id) ==> final(seats).x_owner is None
            && final(seats).o_owner == old(seats).o_owner,
        old(seats).x_owner != Some(user_id) && old(seats).o_owner == Some(user_id)
            ==> final(seats).o_owner is None && final(seats).x_owner == old(seats).x_owner,
{
    let mut vacated: Option<Player> = None;
    if seats.x_owner == Some(user_id) {
        seats.x_owner = None;
        vacated = Some(Player::X);
    } else if seats.o_owner == Some(user_id) {
        seats.o_owner = None;
        vacated = Some(Player::O);
    }
    match vacated {
        Some(p) => {
            let mut message = String::from_str("Player ");
            message.append(p.symbol_str());
            message.append(" left.");
            Some(GameMessage::Update { board: *game.board(), message })
        },
        None => None,
    }
}

/// Answers a command sent as plain text, changing the game as it says: a command that
/// cannot be read is reported and changes nothing.
pub fn answer_text(game: &mut Game, text: &str) -> (m: GameMessage)
    ensures
        ({
            let b = old(game).state.board@;
            let p = old(game).state.current_player;
            match action_of(trimmed(text@)) {
                Ok(a) => {
                    &&& final(game).state.board@ == board_after_action(b, p, a)
                    &&& final(game).state.current_player == player_after_action(b, p, a)
                    &&& m@ == event_message(
                        final(game).state.board,
                        final(game).state.current_player,
                        event_of(b, p, a),
                    )
                },
                Err(e) => {
                    &&& *final(game) == *old(game)
                    &&& m@ == (MessageView::Error { message: action_error_text(e) })
                },
            }
        }),
{
    let chars = crate::text::chars_of(text);
    let t = crate::text::trim(&chars);
    match crate::game::action_from_chars(&t) {
        Ok(action) => {
            let event = game.process_action(action);
            GameMessage::from_event(game, &event)
        },
        Err(e) => GameMessage::from_error(&e),
    }
}

} // verus!
