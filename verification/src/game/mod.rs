//! The rules of a game: reading a player's command, making moves, and whose turn it is.
pub mod state;

pub use state::{Board, MarkSpaceError, Player, State, Status};

use crate::text::{chars_of, parse_decimal, parse_usize, trim, trimmed};
use state::status_of;
use vstd::prelude::*;

verus! {

/// A command of a player.
#[derive(Debug, Copy, Clone, PartialEq, Eq, Structural)]
pub enum Action {
    /// Mark the space with this index (0 to 8).
    Move(usize),
    Quit,
}

/// Why a command could not be read.
#[derive(Debug, Copy, Clone, PartialEq, Eq, Structural)]
pub enum ActionError {
    NotANumber,
    OutOfRange,
}

/// What a command led to.
#[derive(Debug, Copy, Clone, PartialEq, Eq, Structural)]
pub enum Event {
    BoardUpdate,
    GameOver(Status),
    MoveError(MarkSpaceError),
    Quit,
}

/// `s` spells `word`, a word of lower-case ASCII letters, with each letter in
/// either case. For the words `quit` and `q` this is `s.to_lowercase() == word`:
/// Unicode lower-casing gives `q`, `u`, `i` or `t` only for that letter and its
/// capital, and never turns another character into exactly one of them.
pub open spec fn spells_ignoring_case(s: Seq<char>, word: Seq<char>) -> bool {
    &&& s.len() == word.len()
    &&& forall|i: int|
        0 <= i < s.len() ==> #[trigger] s[i] == word[i] || (s[i] as int) + 32 == word[i] as int
}

/// `t` is the quit command, `quit` or `q` in any case.
pub open spec fn is_quit_command(t: Seq<char>) -> bool {
    spells_ignoring_case(t, seq!['q', 'u', 'i', 't']) || spells_ignoring_case(t, seq!['q'])
}

/// The command that a line of input gives: white space around it is ignored;
/// `quit` or `q` in any case quits; a number from 1 to 9 marks that space
/// (counting from 1); another number is out of range; anything else is not a number.
pub open spec fn action_of(input: Seq<char>) -> Result<Action, ActionError> {
    let t = trimmed(input);
    if is_quit_command(t) {
        Ok(Action::Quit)
    } else {
        match parse_usize(t) {
            Some(n) => if 1 <= n <= 9 {
                Ok(Action::Move((n - 1) as usize))
            } else {
                Err(ActionError::OutOfRange)
            },
            None => Err(ActionError::NotANumber),
        }
    }
}

/// White space around a command does not change it.
pub proof fn lemma_action_ignores_surrounding_space(input: Seq<char>)
    ensures
        action_of(trimmed(input)) == action_of(input),
{
    crate::text::lemma_trimmed_idempotent(input);
}

/// `t` is `quit` or `q` in any case.
pub fn is_quit_word(t: &Vec<char>) -> (b: bool)
    ensures
        b == is_quit_command(t@),
{
    let n = t.len();
    let b = if n == 1 {
        t[0] == 'q' || t[0] == 'Q'
    } else if n == 4 {
        (t[0] == 'q' || t[0] == 'Q') && (t[1] == 'u' || t[1] == 'U') && (t[2] == 'i' || t[2]
            == 'I') && (t[3] == 't' || t[3] == 'T')
    } else {
        false
    };
    proof {
        let quit = seq!['q', 'u', 'i', 't'];
        let q = seq!['q'];
        if n == 4 {
            if !b {
                assert(!spells_ignoring_case(t@, quit)) by {
                    if !(t[0] == 'q' || t[0] == 'Q') {
                        assert(!(t@[0] == quit[0] || (t@[0] as int) + 32 == quit[0] as int));
                    } else if !(t[1] == 'u' || t[1] == 'U') {
                        assert(!(t@[1] == quit[1] || (t@[1] as int) + 32 == quit[1] as int));
                    } else if !(t[2] == 'i' || t[2] == 'I') {
                        assert(!(t@[2] == quit[2] || (t@[2] as int) + 32 == quit[2] as int));
                    } else {
                        assert(!(t@[3] == quit[3] || (t@[3] as int) + 32 == quit[3] as int));
                    }
                }
            }
        }
        if n == 1 && !b {
            assert(!(t@[0] == q[0] || (t@[0] as int) + 32 == q[0] as int));
        }
    }
    b
}

/// The command that `chars` gives, read as `action_of` says.
pub fn action_from_chars(chars: &Vec<char>) -> (r: Result<Action, ActionError>)
    ensures
        r == action_of(chars@),
{
    let t = trim(chars);
    if is_quit_word(&t) {
        return Ok(Action::Quit);
    }
    match parse_decimal(&t) {
        Some(n) => if 1 <= n && n <= 9 {
            Ok(Action::Move(n - 1))
        } else {
            Err(ActionError::OutOfRange)
        },
        None => Err(ActionError::NotANumber),
    }
}

impl Action {
    /// Reads a command from a line of input, as `action_of` says.
    pub fn parse(input: &str) -> (r: Result<Action, ActionError>)
        ensures
            r == action_of(input@),
    {
        let chars = chars_of(input);
        action_from_chars(&chars)
    }
}

impl std::str::FromStr for Action {
    type Err = ActionError;

    fn from_str(input: &str) -> (r: Result<Action, ActionError>)
        ensures
            r == action_of(input@),
    {
        Action::parse(input)
    }
}

/// What a move by `p` on space `idx` of board `b` gives: refused off the board or on
/// a marked space; otherwise how the game stands once the space is marked.
pub open spec fn move_outcome(b: Seq<Option<Player>>, p: Player, idx: int) -> Result<
    Status,
    MarkSpaceError,
> {
    if idx < 0 || idx >= 9 {
        Err(MarkSpaceError::OutOfBounds)
    } else if b[idx] is Some {
        Err(MarkSpaceError::SpaceTaken)
    } else {
        Ok(status_of(b.update(idx, Some(p))))
    }
}

/// The board after that move: unchanged when the move is refused.
pub open spec fn board_after_move(b: Seq<Option<Player>>, p: Player, idx: int) -> Seq<
    Option<Player>,
> {
    if move_outcome(b, p, idx) is Ok {
        b.update(idx, Some(p))
    } else {
        b
    }
}

/// Whose turn it is after that move: the other player's when the game goes on,
/// and still `p`'s when the move is refused or ends the game.
pub open spec fn player_after_move(b: Seq<Option<Player>>, p: Player, idx: int) -> Player {
    if move_outcome(b, p, idx) == Ok::<Status, MarkSpaceError>(Status::InProgress) {
        p.other()
    } else {
        p
    }
}

/// The event that a command leads to.
pub open spec fn event_of(b: Seq<Option<Player>>, p: Player, a: Action) -> Event {
    match a {
        Action::Quit => Event::Quit,
        Action::Move(idx) => match move_outcome(b, p, idx as int) {
            Ok(Status::InProgress) => Event::BoardUpdate,
            Ok(s) => Event::GameOver(s),
            Err(e) => Event::MoveError(e),
        },
    }
}

/// The board after a command.
pub open spec fn board_after_action(b: Seq<Option<Player>>, p: Player, a: Action) -> Seq<
    Option<Player>,
> {
    match a {
        Action::Quit => b,
        Action::Move(idx) => board_after_move(b, p, idx as int),
    }
}

/// Whose turn it is after a command.
pub open spec fn player_after_action(b: Seq<Option<Player>>, p: Player, a: Action) -> Player {
    match a {
        Action::Quit => p,
        Action::Move(idx) => player_after_move(b, p, idx as int),
    }
}

/// The number of spaces that `p` has marked.
pub open spec fn count_marks(b: Seq<Option<Player>>, p: Player) -> nat
    decreases b.len(),
{
    if b.len() == 0 {
        0
    } else {
        count_marks(b.drop_last(), p) + if b.last() == Some(p) {
            1nat
        } else {
            0nat
        }
    }
}

/// The players take turns: while the game is in progress, `X` is to move when both
/// have as many marks and `O` when `X` has one more; once it is over, the player who
/// made the last mark is still the current one.
pub open spec fn turns_alternate(b: Seq<Option<Player>>, p: Player) -> bool {
    let x = count_marks(b, Player::X);
    let o = count_marks(b, Player::O);
    if status_of(b) == Status::InProgress {
        (x == o && p == Player::X) || (x == o + 1 && p == Player::O)
    } else {
        (x == o + 1 && p == Player::X) || (x == o && p == Player::O)
    }
}

/// Marking an empty space adds one to the count of the player who marks it and
/// leaves the other count alone.
proof fn lemma_count_after_mark(b: Seq<Option<Player>>, i: int, p: Player, q: Player)
    requires
        0 <= i < b.len(),
        b[i] is None,
    ensures
        count_marks(b.update(i, Some(p)), q) == count_marks(b, q) + if p == q {
            1nat
        } else {
            0nat
        },
    decreases b.len(),
{
    let b1 = b.update(i, Some(p));
    if i == b.len() - 1 {
        assert(b1.drop_last() =~= b.drop_last());
    } else {
        lemma_count_after_mark(b.drop_last(), i, p, q);
        assert(b1.drop_last() =~= b.drop_last().update(i, Some(p)));
    }
}

/// An empty board holds no marks.
proof fn lemma_count_empty(b: Seq<Option<Player>>, q: Player)
    requires
        forall|i: int| 0 <= i < b.len() ==> b[i] is None,
    ensures
        count_marks(b, q) == 0,
    decreases b.len(),
{
    if b.len() > 0 {
        lemma_count_empty(b.drop_last(), q);
    }
}

/// A new game is in progress with `X` to move, and the players take turns from there.
pub proof fn lemma_new_game_turns_alternate(b: Seq<Option<Player>>)
    requires
        b.len() == 9,
        forall|i: int| 0 <= i < 9 ==> b[i] == None::<Player>,
    ensures
        status_of(b) == Status::InProgress,
        turns_alternate(b, Player::X),
{
    lemma_count_empty(b, Player::X);
    lemma_count_empty(b, Player::O);
    state::lemma_winner(b);
    assert(b[0] is None);
}

/// A move made while the game is in progress keeps the players taking turns,
/// whether it is refused, lets the game go on, or ends it.
pub proof fn lemma_move_keeps_turns_alternating(b: Seq<Option<Player>>, p: Player, idx: int)
    requires
        b.len() == 9,
        status_of(b) == Status::InProgress,
        turns_alternate(b, p),
    ensures
        turns_alternate(board_after_move(b, p, idx), player_after_move(b, p, idx)),
{
    if move_outcome(b, p, idx) is Ok {
        lemma_count_after_mark(b, idx, p, Player::X);
        lemma_count_after_mark(b, idx, p, Player::O);
    }
}

/// A command given while the game is in progress keeps the players taking turns.
pub proof fn lemma_action_keeps_turns_alternating(b: Seq<Option<Player>>, p: Player, a: Action)
    requires
        b.len() == 9,
        status_of(b) == Status::InProgress,
        turns_alternate(b, p),
    ensures
        turns_alternate(board_after_action(b, p, a), player_after_action(b, p, a)),
{
    if let Action::Move(idx) = a {
        lemma_move_keeps_turns_alternating(b, p, idx as int);
    }
}

/// A move never changes a marked space, and changes at most the space it names.
pub proof fn lemma_marks_stay(b: Seq<Option<Player>>, p: Player, idx: int)
    requires
        b.len() == 9,
    ensures
        board_after_move(b, p, idx).len() == 9,
        forall|j: int| 0 <= j < 9 && b[j] is Some ==> #[trigger] board_after_move(b, p, idx)[j] == b[j],
        forall|j: int| 0 <= j < 9 && j != idx ==> #[trigger] board_after_move(b, p, idx)[j] == b[j],
{
}

/// A move that wins a game in progress wins it for the player who made it: every
/// complete line of the new board passes through the space just marked.
pub proof fn lemma_winning_move_wins_for_mover(b: Seq<Option<Player>>, p: Player, idx: int)
    requires
        b.len() == 9,
        status_of(b) == Status::InProgress,
        move_outcome(b, p, idx) matches Ok(Status::Won(_)),
    ensures
        move_outcome(b, p, idx) == Ok::<Status, MarkSpaceError>(Status::Won(p)),
{
    let b1 = b.update(idx, Some(p));
    let w = move_outcome(b, p, idx)->Ok_0->Won_0;
    state::lemma_winner(b);
    state::lemma_winner(b1);
    let k = choose|k: int| 0 <= k < 8 && #[trigger] state::holds_line(b1, k, w);
    assert(state::holds_line(b1, k, w));
    assert(!state::holds_line(b, k, w));
}

/// A game in play.
pub struct Game {
    pub state: State,
}

impl Game {
    /// A new game: an empty board, `X` to move.
    pub fn new() -> (g: Game)
        ensures
            forall|i: int| 0 <= i < 9 ==> g.state.board@[i] == None::<Player>,
            g.state.current_player == Player::X,
    {
        Game { state: State::new() }
    }

    pub fn board(&self) -> (b: &Board)
        ensures
            *b == self.state.board,
    {
        self.state.board()
    }

    pub fn current_player(&self) -> (p: Player)
        ensures
            p == self.state.current_player,
    {
        self.state.current_player()
    }

    /// Carries out a command: quitting changes nothing; a move is made by the
    /// player whose turn it is, as `make_move` says.
    pub fn process_action(&mut self, action: Action) -> (e: Event)
        ensures
            e == event_of(old(self).state.board@, old(self).state.current_player, action),
            final(self).state.board@ == board_after_action(
                old(self).state.board@,
                old(self).state.current_player,
                action,
            ),
            final(self).state.current_player == player_after_action(
                old(self).state.board@,
                old(self).state.current_player,
                action,
            ),
    {
        match action {
            Action::Quit => Event::Quit,
            Action::Move(idx) => match self.make_move(idx) {
                Ok(Status::InProgress) => Event::BoardUpdate,
                Ok(status) => Event::GameOver(status),
                Err(e) => Event::MoveError(e),
            },
        }
    }

    /// The player whose turn it is marks space `idx`. A refused move changes nothing;
    /// the turn passes only when the game goes on.
    pub fn make_move(&mut self, idx: usize) -> (r: Result<Status, MarkSpaceError>)
        ensures
            r == move_outcome(old(self).state.board@, old(self).state.current_player, idx as int),
            final(self).state.board@ == board_after_move(
                old(self).state.board@,
                old(self).state.current_player,
                idx as int,
            ),
            final(self).state.current_player == player_after_move(
                old(self).state.board@,
                old(self).state.current_player,
                idx as int,
            ),
            r is Err ==> *final(self) == *old(self),
    {
        let player = self.current_player();
        match self.state.mark_space(idx, player) {
            Ok(()) => {},
            Err(e) => {
                return Err(e);
            },
        }
        let status = self.state.status();
        if let Status::InProgress = status {
            self.state.next_turn();
        }
        Ok(status)
    }
}

} // verus!
