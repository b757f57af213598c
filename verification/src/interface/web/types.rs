//! The commands web players send, and who sits in which seat.
use crate::game::{
    board_after_action, event_of, player_after_action, Action, Game, Player,
};
use crate::interface::{event_message, GameMessage, MessageView};
use vstd::prelude::*;

verus! {

/// A command sent by a web player.
#[derive(Debug, Copy, Clone, PartialEq, Eq, Structural)]
pub enum WebAction {
    /// Take the seat of this player.
    Claim(Player),
    /// Mark this space, counting from 1.
    Move(usize),
    Quit,
}

/// The users who hold the two seats.
#[derive(Debug, Copy, Clone, PartialEq, Eq, Structural)]
pub struct Seats {
    pub x_owner: Option<usize>,
    pub o_owner: Option<usize>,
}

impl Default for Seats {
    /// Both seats free.
    fn default() -> (s: Seats)
        ensures
            s.x_owner is None,
            s.o_owner is None,
    {
        Seats { x_owner: None, o_owner: None }
    }
}

impl Seats {
    /// The user who holds the seat of `p`.
    pub open spec fn seat(self, p: Player) -> Option<usize> {
        match p {
            Player::X => self.x_owner,
            Player::O => self.o_owner,
        }
    }

    /// These seats with the seat of `p` given to `owner`.
    pub open spec fn with_seat(self, p: Player, owner: Option<usize>) -> Seats {
        match p {
            Player::X => Seats { x_owner: owner, o_owner: self.o_owner },
            Player::O => Seats { x_owner: self.x_owner, o_owner: owner },
        }
    }

    /// No user holds both seats.
    pub open spec fn apart(self) -> bool {
        self.x_owner is Some ==> self.o_owner != self.x_owner
    }
}

/// User `id` may take the seat of `p`: it is free, and `id` does not hold the other one.
pub open spec fn may_claim(seats: Seats, p: Player, id: usize) -> bool {
    seats.seat(p) is None && seats.seat(p.other()) != Some(id)
}

/// User `id` holds the seat of the player whose turn it is.
pub open spec fn may_move(seats: Seats, current: Player, id: usize) -> bool {
    seats.seat(current) == Some(id)
}

/// "Player X joined!".
pub open spec fn joined_text(p: Player) -> Seq<char> {
    "Player "@ + seq![p.symbol()] + " joined!"@
}

/// A claim is granted exactly when the seat is free and the claimant does not hold the
/// other seat; granting it seats the claimant and leaves the other seat as it was.
pub proof fn lemma_claim_rules(seats: Seats, p: Player, id: usize)
    ensures
        may_claim(seats, p, id) <==> (p == Player::X && seats.x_owner is None && seats.o_owner
            != Some(id)) || (p == Player::O && seats.o_owner is None && seats.x_owner != Some(id)),
        seats.with_seat(p, Some(id)).seat(p) == Some(id),
        p == Player::X ==> seats.with_seat(p, Some(id)).o_owner == seats.o_owner,
        p == Player::O ==> seats.with_seat(p, Some(id)).x_owner == seats.x_owner,
{
}

impl WebAction {
    /// Carries out the command of user `player_id`. A claim takes a free seat unless
    /// the user holds the other one; a move (numbered from 1) is made only by the
    /// holder of the seat whose turn it is. Returns the message to broadcast, or
    /// nothing when the command is ignored, and then nothing changes.
    pub fn execute(self, player_id: usize, game: &mut Game, seats: &mut Seats) -> (r: Option<
        GameMessage,
    >)
        requires
            self matches WebAction::Move(idx) ==> (may_move(
                *old(seats),
                old(game).state.current_player,
                player_id,
            ) ==> idx >= 1),
        ensures
            match self {
                WebAction::Claim(p) => if may_claim(*old(seats), p, player_id) {
                    &&& *final(seats) == old(seats).with_seat(p, Some(player_id))
                    &&& *final(game) == *old(game)
                    &&& r matches Some(m) && m@ == (MessageView::Update {
                        board: old(game).state.board,
                        message: joined_text(p),
                    })
                } else {
                    &&& r is None
                    &&& *final(seats) == *old(seats)
                    &&& *final(game) == *old(game)
                },
                WebAction::Move(idx) => if may_move(
                    *old(seats),
                    old(game).state.current_player,
                    player_id,
                ) {
                    let b = old(game).state.board@;
                    let p = old(game).state.current_player;
                    let a = Action::Move((idx - 1) as usize);
                    &&& *final(seats) == *old(seats)
                    &&& final(game).state.board@ == board_after_action(b, p, a)
                    &&& final(game).state.current_player == player_after_action(b, p, a)
                    &&& r matches Some(m) && m@ == event_message(
                        final(game).state.board,
                        final(game).state.current_player,
                        event_of(b, p, a),
                    )
                } else {
                    &&& r is None
                    &&& *final(seats) == *old(seats)
                    &&& *final(game) == *old(game)
                },
                WebAction::Quit => {
                    &&& r is None
                    &&& *final(seats) == *old(seats)
                    &&& *final(game) == *old(game)
                },
            },
            old(seats).apart() ==> final(seats).apart(),
            self matches WebAction::Claim(p) ==> ({
                let held = if p == Player::X {
                    old(seats).x_owner
                } else {
                    old(seats).o_owner
                };
                let other = if p == Player::X {
                    old(seats).o_owner
                } else {
                    old(seats).x_owner
                };
                &&& (held is Some || other == Some(player_id)) ==> {
                    &&& r is None
                    &&& *final(seats) == *old(seats)
                    &&& *final(game) == *old(game)
                }
                &&& (held is None && other != Some(player_id)) ==> {
                    &&& r is Some
                    &&& *final(game) == *old(game)
                    &&& p == Player::X ==> final(seats).x_owner == Some(player_id)
                        && final(seats).o_owner == old(seats).o_owner
                    &&& p == Player::O ==> final(seats).o_owner == Some(player_id)
                        && final(seats).x_owner == old(seats).x_owner
                }
            }),
    {
        match self {
            WebAction::Claim(player) => {
                let (owner, other_owner) = match player {
                    Player::X => (seats.x_owner, seats.o_owner),
                    Player::O => (seats.o_owner, seats.x_owner),
                };
                if owner.is_none() && other_owner != Some(player_id) {
                    match player {
                        Player::X => {
                            seats.x_owner = Some(player_id);
                        },
                        Player::O => {
                            seats.o_owner = Some(player_id);
                        },
                    }
                    let mut message = String::from_str("Player ");
                    message.append(player.symbol_str());
                    message.append(" joined!");
                    return Some(GameMessage::Update { board: *game.board(), message });
                }
                None
            },
            WebAction::Move(idx) => {
                let current_owner = match game.current_player() {
                    Player::X => seats.x_owner,
                    Player::O => seats.o_owner,
                };
                if current_owner == Some(player_id) {
                    let event = game.process_action(Action::Move(idx - 1));
                    return Some(GameMessage::from_event(game, &event));
                }
                None
            },
            WebAction::Quit => None,
        }
    }
}

} // verus!
