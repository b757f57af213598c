//! The board, whose turn it is, and how a game stands.
use vstd::prelude::*;

verus! {

/// One of the two players. `X` moves first.
#[derive(Debug, Copy, Clone, PartialEq, Eq, Structural)]
pub enum Player {
    X,
    O,
}

/// The nine spaces of the board, row by row from the top left; `None` is an empty space.
pub type Board = [Option<Player>; 9];

/// Why a space cannot be marked.
#[derive(Debug, Copy, Clone, PartialEq, Eq, Structural)]
pub enum MarkSpaceError {
    OutOfBounds,
    SpaceTaken,
}

/// How a game stands.
#[derive(Debug, Copy, Clone, PartialEq, Eq, Structural)]
pub enum Status {
    InProgress,
    Won(Player),
    Draw,
}

impl Player {
    /// The player who moves after `self`.
    pub open spec fn other(self) -> Player {
        match self {
            Player::X => Player::O,
            Player::O => Player::X,
        }
    }

    /// The letter that shows this player's mark.
    pub open spec fn symbol(self) -> char {
        match self {
            Player::X => 'X',
            Player::O => 'O',
        }
    }

    pub fn next(&self) -> (p: Player)
        ensures
            p == self.other(),
    {
        match self {
            Player::O => Player::X,
            Player::X => Player::O,
        }
    }

    /// The player's mark as text, as `Display` shows it.
    pub fn symbol_str(&self) -> (s: &'static str)
        ensures
            s@ == seq![self.symbol()],
    {
        proof {
            reveal_strlit("X");
            reveal_strlit("O");
        }
        match self {
            Player::O => "O",
            Player::X => "X",
        }
    }

    /// The player's mark as an owned string.
    pub fn to_string(&self) -> (s: String)
        ensures
            s@ == seq![self.symbol()],
    {
        self.symbol_str().to_owned()
    }
}

/// Passing the turn twice gives it back, and never leaves it with the same player.
pub proof fn lemma_turn_passes_back(p: Player)
    ensures
        p.other() != p,
        p.other().other() == p,
{
}

impl MarkSpaceError {
    /// The name of the error, as `Debug` shows it.
    pub open spec fn name(self) -> Seq<char> {
        match self {
            MarkSpaceError::OutOfBounds => "OutOfBounds"@,
            MarkSpaceError::SpaceTaken => "SpaceTaken"@,
        }
    }

    pub fn name_str(&self) -> (s: &'static str)
        ensures
            s@ == self.name(),
    {
        match self {
            MarkSpaceError::OutOfBounds => "OutOfBounds",
            MarkSpaceError::SpaceTaken => "SpaceTaken",
        }
    }
}

/// The three spaces of the `k`-th winning line: the rows, then the columns,
/// then the two diagonals.
pub open spec fn win_line(k: int) -> (int, int, int) {
    if k == 0 {
        (0, 1, 2)
    } else if k == 1 {
        (3, 4, 5)
    } else if k == 2 {
        (6, 7, 8)
    } else if k == 3 {
        (0, 3, 6)
    } else if k == 4 {
        (1, 4, 7)
    } else if k == 5 {
        (2, 5, 8)
    } else if k == 6 {
        (0, 4, 8)
    } else {
        (2, 4, 6)
    }
}

/// `p` holds all three spaces of the `k`-th winning line.
pub open spec fn holds_line(cells: Seq<Option<Player>>, k: int, p: Player) -> bool {
    let (a, b, c) = win_line(k);
    cells[a] == Some(p) && cells[b] == Some(p) && cells[c] == Some(p)
}

/// The owner of the first complete line from the `k`-th on, in the order of `win_line`.
pub open spec fn winner_from(cells: Seq<Option<Player>>, k: int) -> Option<Player>
    decreases 8 - k,
{
    if k >= 8 || k < 0 {
        None
    } else {
        let (a, b, c) = win_line(k);
        match cells[a] {
            Some(p) => if holds_line(cells, k, p) {
                Some(p)
            } else {
                winner_from(cells, k + 1)
            },
            None => winner_from(cells, k + 1),
        }
    }
}

/// The owner of the first complete line of the board, if any.
pub open spec fn winner(cells: Seq<Option<Player>>) -> Option<Player> {
    winner_from(cells, 0)
}

/// Every space of the board is marked.
pub open spec fn is_full(cells: Seq<Option<Player>>) -> bool {
    forall|i: int| 0 <= i < 9 ==> (#[trigger] cells[i]) is Some
}

/// How a game with this board stands.
pub open spec fn status_of(cells: Seq<Option<Player>>) -> Status {
    match winner(cells) {
        Some(p) => Status::Won(p),
        None => if is_full(cells) {
            Status::Draw
        } else {
            Status::InProgress
        },
    }
}

/// A line found by `winner_from` is complete, and when it finds none, no line
/// from the `k`-th on is complete.
proof fn lemma_winner_from(cells: Seq<Option<Player>>, k: int)
    requires
        0 <= k <= 8,
    ensures
        winner_from(cells, k) matches Some(p) ==> exists|j: int|
            k <= j < 8 && #[trigger] holds_line(cells, j, p),
        winner_from(cells, k) is None ==> forall|j: int, p: Player|
            k <= j < 8 ==> !#[trigger] holds_line(cells, j, p),
    decreases 8 - k,
{
    if k < 8 {
        lemma_winner_from(cells, k + 1);
        let (a, b, c) = win_line(k);
        match cells[a] {
            Some(p) => {
                if holds_line(cells, k, p) {
                } else {
                    assert forall|j: int, q: Player|
                        k <= j < 8 && winner_from(cells, k) is None implies !holds_line(
                        cells,
                        j,
                        q,
                    ) by {
                        if j == k && holds_line(cells, j, q) {
                            assert(q == p);
                        }
                    }
                }
            },
            None => {
            },
        }
    }
}

/// The winner of a board holds a complete line, and a board without winner has
/// no complete line.
pub proof fn lemma_winner(cells: Seq<Option<Player>>)
    ensures
        winner(cells) matches Some(p) ==> exists|k: int| 0 <= k < 8 && #[trigger] holds_line(cells, k, p),
        winner(cells) is None ==> forall|k: int, p: Player|
            0 <= k < 8 ==> !#[trigger] holds_line(cells, k, p),
{
    lemma_winner_from(cells, 0);
}

/// How a game stands, said space by space: it is drawn exactly when all nine spaces
/// are marked and no line is complete; it is in progress exactly when some space is
/// empty and no line is complete; a winner holds a complete line.
pub proof fn lemma_status_meaning(cells: Seq<Option<Player>>)
    requires
        cells.len() == 9,
    ensures
        status_of(cells) == Status::Draw <==> (forall|i: int|
            0 <= i < 9 ==> (#[trigger] cells[i]) is Some) && (forall|k: int, p: Player|
            0 <= k < 8 ==> !#[trigger] holds_line(cells, k, p)),
        status_of(cells) == Status::InProgress <==> (exists|i: int|
            0 <= i < 9 && (#[trigger] cells[i]) is None) && (forall|k: int, p: Player|
            0 <= k < 8 ==> !#[trigger] holds_line(cells, k, p)),
        status_of(cells) matches Status::Won(p) ==> exists|k: int|
            0 <= k < 8 && #[trigger] holds_line(cells, k, p),
{
    lemma_winner(cells);
    if winner(cells) is Some {
        let p = winner(cells)->0;
        let k = choose|k: int| 0 <= k < 8 && #[trigger] holds_line(cells, k, p);
        assert(holds_line(cells, k, p));
    }
}

/// The board and the player whose turn it is.
pub struct State {
    pub board: Board,
    pub current_player: Player,
}

/// The spaces of each winning line, rows, columns, then diagonals.
fn win_line_exec(k: usize) -> (l: (usize, usize, usize))
    requires
        k < 8,
    ensures
        l.0 == win_line(k as int).0,
        l.1 == win_line(k as int).1,
        l.2 == win_line(k as int).2,
        l.0 < 9 && l.1 < 9 && l.2 < 9,
{
    match k {
        0 => (0, 1, 2),
        1 => (3, 4, 5),
        2 => (6, 7, 8),
        3 => (0, 3, 6),
        4 => (1, 4, 7),
        5 => (2, 5, 8),
        6 => (0, 4, 8),
        _ => (2, 4, 6),
    }
}

impl State {
    /// An empty board with `X` to move.
    pub fn new() -> (s: State)
        ensures
            forall|i: int| 0 <= i < 9 ==> s.board@[i] == None::<Player>,
            s.current_player == Player::X,
    {
        State { board: [None;9], current_player: Player::X }
    }

    pub fn board(&self) -> (b: &Board)
        ensures
            *b == self.board,
    {
        &self.board
    }

    pub fn current_player(&self) -> (p: Player)
        ensures
            p == self.current_player,
    {
        self.current_player
    }

    /// How the game stands: won by the owner of the first complete line, drawn when
    /// the board is full without one, in progress otherwise.
    pub fn status(&self) -> (s: Status)
        ensures
            s == status_of(self.board@),
            s matches Status::Won(p) ==> exists|k: int| 0 <= k < 8 && #[trigger] holds_line(self.board@, k, p),
            s == Status::Draw ==> is_full(self.board@) && forall|k: int, p: Player|
                0 <= k < 8 ==> !#[trigger] holds_line(self.board@, k, p),
            s == Status::InProgress ==> !is_full(self.board@) && forall|k: int, p: Player|
                0 <= k < 8 ==> !#[trigger] holds_line(self.board@, k, p),
            s == Status::Draw ==> forall|i: int| 0 <= i < 9 ==> (#[trigger] self.board@[i]) is Some,
            (exists|i: int| 0 <= i < 9 && (#[trigger] self.board@[i]) is None) && winner(
                self.board@,
            ) is None ==> s == Status::InProgress,
    {
        proof {
            lemma_winner(self.board@);
        }
        if let Some(w) = self.check_winner() {
            return Status::Won(w);
        }
        let mut i: usize = 0;
        while i < 9
            invariant
                i <= 9,
                winner(self.board@) is None,
                forall|j: int| 0 <= j < i ==> (#[trigger] self.board@[j]) is Some,
            decreases 9 - i,
        {
            if self.board[i].is_none() {
                assert(self.board@[i as int] is None);
                proof {
                    lemma_winner(self.board@);
                }
                return Status::InProgress;
            }
            i = i + 1;
        }
        Status::Draw
    }

    /// Marks space `idx` for `player`: refused when `idx` is off the board or the space
    /// is already marked, and then nothing changes.
    pub fn mark_space(&mut self, idx: usize, player: Player) -> (r: Result<(), MarkSpaceError>)
        ensures
            idx >= 9 ==> r == Err::<(), MarkSpaceError>(MarkSpaceError::OutOfBounds)
                && *final(self) == *old(self),
            idx < 9 && old(self).board@[idx as int] is Some ==> r == Err::<(), MarkSpaceError>(
                MarkSpaceError::SpaceTaken,
            ) && *final(self) == *old(self),
            idx < 9 && old(self).board@[idx as int] is None ==> r == Ok::<(), MarkSpaceError>(())
                && final(self).board@ == old(self).board@.update(idx as int, Some(player))
                && final(self).current_player == old(self).current_player,
    {
        if idx >= 9 {
            return Err(MarkSpaceError::OutOfBounds);
        }
        if self.board[idx].is_some() {
            return Err(MarkSpaceError::SpaceTaken);
        }
        self.board[idx] = Some(player);
        Ok(())
    }

    /// Passes the turn to the other player.
    pub fn next_turn(&mut self)
        ensures
            final(self).board == old(self).board,
            final(self).current_player == old(self).current_player.other(),
    {
        self.current_player = self.current_player.next();
    }

    /// The owner of the first complete line, taking the rows, the columns, then the
    /// diagonals in turn.
    pub fn check_winner(&self) -> (w: Option<Player>)
        ensures
            w == winner(self.board@),
            w matches Some(p) ==> exists|k: int| 0 <= k < 8 && #[trigger] holds_line(self.board@, k, p),
            w is None ==> forall|k: int, p: Player|
                0 <= k < 8 ==> !#[trigger] holds_line(self.board@, k, p),
    {
        proof {
            lemma_winner(self.board@);
        }
        let mut k: usize = 0;
        while k < 8
            invariant
                k <= 8,
                winner(self.board@) == winner_from(self.board@, k as int),
            decreases 8 - k,
        {
            let (a, b, c) = win_line_exec(k);
            if let Some(p) = self.board[a] {
                if self.board[b] == Some(p) && self.board[c] == Some(p) {
                    return Some(p);
                }
            }
            k = k + 1;
        }
        None
    }
}

} // verus!
