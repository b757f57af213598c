//! The terminal front end: the board and prompts it writes, the command it reads
//! from a line, and a whole session over a given input.
use crate::game::{
    action_from_chars, action_of, board_after_action, event_of, player_after_action, Action,
    ActionError, Board, Event, Game, Player, Status, move_outcome,
};
use crate::interface::{
    win_text,
    action_error_text, game_over_text, illegal_move_text, turn_text, GameMessage,
};
use crate::text::{
    chars_of, copy_range, lemma_encode_utf8_concat, trim, trimmed, write_line, write_str,
};
use vstd::prelude::*;
use vstd::utf8::encode_utf8;

verus! {

/// The digit that numbers space `i` for the players, who count from 1.
pub open spec fn space_number(i: int) -> char {
    if i == 0 {
        '1'
    } else if i == 1 {
        '2'
    } else if i == 2 {
        '3'
    } else if i == 3 {
        '4'
    } else if i == 4 {
        '5'
    } else if i == 5 {
        '6'
    } else if i == 6 {
        '7'
    } else if i == 7 {
        '8'
    } else {
        '9'
    }
}

/// What space `i` shows: the mark on it, or its number when it is empty.
pub open spec fn cell_char(cell: Option<Player>, i: int) -> char {
    match cell {
        Some(p) => p.symbol(),
        None => space_number(i),
    }
}

/// The row of the board that starts at space `i`: " 1 | X | 3 " and a newline.
pub open spec fn row_text(b: Seq<Option<Player>>, i: int) -> Seq<char> {
    seq![
        ' ',
        cell_char(b[i], i),
        ' ',
        '|',
        ' ',
        cell_char(b[i + 1], i + 1),
        ' ',
        '|',
        ' ',
        cell_char(b[i + 2], i + 2),
        ' ',
        '\n',
    ]
}

/// The line between two rows.
pub open spec fn separator_text() -> Seq<char> {
    "-----------\n"@
}

/// The board as shown: a blank line, the three rows with a line between each two,
/// and a blank line.
pub open spec fn board_text(b: Seq<Option<Player>>) -> Seq<char> {
    seq!['\n'] + row_text(b, 0) + separator_text() + row_text(b, 3) + separator_text()
        + row_text(b, 6) + seq!['\n']
}

/// "Player X, enter your move (1-9):" and a newline.
pub open spec fn prompt_text(p: Player) -> Seq<char> {
    "Player "@ + seq![p.symbol()] + ", enter your move (1-9):\n"@
}

/// What space `i` shows, as text.
pub fn cell_str(cell: Option<Player>, i: usize) -> (s: &'static str)
    requires
        i < 9,
    ensures
        s@ == seq![cell_char(cell, i as int)],
{
    match cell {
        Some(p) => p.symbol_str(),
        None => {
            proof {
                reveal_strlit("1");
                reveal_strlit("2");
                reveal_strlit("3");
                reveal_strlit("4");
                reveal_strlit("5");
                reveal_strlit("6");
                reveal_strlit("7");
                reveal_strlit("8");
                reveal_strlit("9");
            }
            match i {
                0 => "1",
                1 => "2",
                2 => "3",
                3 => "4",
                4 => "5",
                5 => "6",
                6 => "7",
                7 => "8",
                _ => "9",
            }
        },
    }
}

/// Appends the row of the board that starts at space `i`.
pub fn append_row(s: &mut String, board: &Board, i: usize)
    requires
        i + 2 < 9,
    ensures
        final(s)@ == old(s)@ + row_text(board@, i as int),
{
    proof {
        reveal_strlit(" ");
        reveal_strlit(" | ");
        reveal_strlit(" \n");
    }
    s.append(" ");
    s.append(cell_str(board[i], i));
    s.append(" | ");
    s.append(cell_str(board[i + 1], i + 1));
    s.append(" | ");
    s.append(cell_str(board[i + 2], i + 2));
    s.append(" \n");
    assert(final(s)@ =~= old(s)@ + row_text(board@, i as int));
}

/// The board as shown, as a string.
pub fn board_string(board: &Board) -> (s: String)
    ensures
        s@ == board_text(board@),
{
    proof {
        reveal_strlit("\n");
    }
    let mut s = String::from_str("\n");
    append_row(&mut s, board, 0);
    s.append("-----------\n");
    append_row(&mut s, board, 3);
    s.append("-----------\n");
    append_row(&mut s, board, 6);
    s.append("\n");
    s
}

/// Writes the board: each space shows its mark, or its number when it is empty.
pub fn render_board(writer: &mut Vec<u8>, board: &Board) -> (r: Result<(), std::io::Error>)
    ensures
        r is Ok,
        final(writer)@ == old(writer)@ + encode_utf8(board_text(board@)),
{
    let text = board_string(board);
    write_str(writer, text.as_str());
    Ok(())
}

/// Asks `player` for a move.
pub fn prompt_move(writer: &mut Vec<u8>, player: Player) -> (r: Result<(), std::io::Error>)
    ensures
        r is Ok,
        final(writer)@ == old(writer)@ + encode_utf8(prompt_text(player)),
{
    let mut msg = String::from_str("Player ");
    msg.append(player.symbol_str());
    msg.append(", enter your move (1-9):");
    proof {
        reveal_strlit("\n");
        reveal_strlit(", enter your move (1-9):");
        reveal_strlit(", enter your move (1-9):\n");
        assert(msg@ + seq!['\n'] =~= prompt_text(player));
    }
    write_line(writer, msg.as_str())
}

/// The command that a line read from the terminal gives: an empty read (the end of
/// the input) quits; otherwise as `action_of` says of the trimmed line.
pub open spec fn line_action(line: Seq<char>) -> Result<Action, ActionError> {
    if line.len() == 0 {
        Ok(Action::Quit)
    } else {
        action_of(trimmed(line))
    }
}

/// Reads the command in `line`, the text of one read of a line ("" at the end of
/// the input).
pub fn get_action(line: &str) -> (r: Result<Action, ActionError>)
    ensures
        r == line_action(line@),
{
    let chars = chars_of(line);
    action_from_line(&chars)
}

fn action_from_line(chars: &Vec<char>) -> (r: Result<Action, ActionError>)
    ensures
        r == line_action(chars@),
{
    if chars.len() == 0 {
        return Ok(Action::Quit);
    }
    let t = trim(chars);
    action_from_chars(&t)
}


/// Where the line that starts at index `i` of `input` ends: just after its newline,
/// or at the end of the input.
pub open spec fn line_end(input: Seq<char>, i: int) -> int
    decreases input.len() - i,
{
    if i >= input.len() {
        input.len() as int
    } else if input[i] == '\n' {
        i + 1
    } else {
        line_end(input, i + 1)
    }
}

/// A line that starts inside the input ends after its start and no later than the end.
pub proof fn lemma_line_end(input: Seq<char>, i: int)
    requires
        0 <= i <= input.len(),
    ensures
        i <= line_end(input, i) <= input.len(),
        i < input.len() ==> i < line_end(input, i),
    decreases input.len() - i,
{
    if i < input.len() && input[i] != '\n' {
        lemma_line_end(input, i + 1);
    }
}

/// What the terminal answers to a line (the board first when the game ends), and
/// whether the session goes on.
pub open spec fn line_reply(b: Seq<Option<Player>>, p: Player, line: Seq<char>) -> (
    Seq<char>,
    bool,
) {
    match line_action(line) {
        Err(e) => (action_error_text(e) + seq!['\n'], true),
        Ok(a) => {
            let b1 = board_after_action(b, p, a);
            let p1 = player_after_action(b, p, a);
            match event_of(b, p, a) {
                Event::BoardUpdate => (turn_text(p1) + seq!['\n'], true),
                Event::MoveError(err) => (illegal_move_text(err) + seq!['\n'], true),
                Event::Quit => ("Game exited."@ + seq!['\n'], false),
                Event::GameOver(s) => (board_text(b1) + game_over_text(s) + seq!['\n'], false),
            }
        },
    }
}

/// The board after a line.
pub open spec fn board_after_line(b: Seq<Option<Player>>, p: Player, line: Seq<char>) -> Seq<
    Option<Player>,
> {
    match line_action(line) {
        Err(_) => b,
        Ok(a) => board_after_action(b, p, a),
    }
}

/// Whose turn it is after a line.
pub open spec fn player_after_line(b: Seq<Option<Player>>, p: Player, line: Seq<char>) -> Player {
    match line_action(line) {
        Err(_) => p,
        Ok(a) => player_after_action(b, p, a),
    }
}

/// Everything the terminal shows from the line at index `i` of `input` on: for each
/// turn the board, the prompt and the answer to the line read, until a line quits or
/// ends the game, or the input runs out.
pub open spec fn session_text(b: Seq<Option<Player>>, p: Player, input: Seq<char>, i: int) -> Seq<
    char,
>
    decreases input.len() - i,
{
    let end = line_end(input, i);
    let line = input.subrange(i, end);
    let reply = line_reply(b, p, line);
    let shown = board_text(b) + prompt_text(p) + reply.0;
    if reply.1 && 0 <= i < input.len() {
        proof {
            lemma_line_end(input, i);
        }
        shown + session_text(
            board_after_line(b, p, line),
            player_after_line(b, p, line),
            input,
            end,
        )
    } else {
        shown
    }
}

/// `t` ends with the line `f`: a newline, `f`, and a newline.
pub open spec fn ends_with_line(t: Seq<char>, f: Seq<char>) -> bool {
    &&& t.len() >= f.len() + 2
    &&& t.subrange(t.len() - f.len() - 2, t.len() as int) == seq!['\n'] + f + seq!['\n']
}

/// `t` ends with a line that closes a session: the quit notice, a win, or a draw.
pub open spec fn ends_on_closing_line(t: Seq<char>) -> bool {
    ||| ends_with_line(t, "Game exited."@)
    ||| ends_with_line(t, win_text(Player::X))
    ||| ends_with_line(t, win_text(Player::O))
    ||| ends_with_line(t, "It's a draw!"@)
}

/// The number of turns a session shows from the line at index `i` on.
pub open spec fn session_turns(b: Seq<Option<Player>>, p: Player, input: Seq<char>, i: int) -> nat
    decreases input.len() - i,
{
    let end = line_end(input, i);
    let line = input.subrange(i, end);
    if line_reply(b, p, line).1 && 0 <= i < input.len() {
        proof {
            lemma_line_end(input, i);
        }
        1 + session_turns(
            board_after_line(b, p, line),
            player_after_line(b, p, line),
            input,
            end,
        )
    } else {
        1
    }
}

/// The number of lines in `input` from index `i` on; a last line need not end with a
/// newline.
pub open spec fn lines_from(input: Seq<char>, i: int) -> nat
    decreases input.len() - i,
{
    if 0 <= i < input.len() {
        proof {
            lemma_line_end(input, i);
        }
        1 + lines_from(input, line_end(input, i))
    } else {
        0
    }
}

/// Prefixing text keeps a closing line at the end.
proof fn lemma_closing_line_prefix(a: Seq<char>, t: Seq<char>)
    requires
        ends_on_closing_line(t),
    ensures
        ends_on_closing_line(a + t),
{
    let u = a + t;
    assert forall|f: Seq<char>| ends_with_line(t, f) implies ends_with_line(u, f) by {
        assert(u.subrange(u.len() - f.len() - 2, u.len() as int) =~= t.subrange(
            t.len() - f.len() - 2,
            t.len() as int,
        ));
    }
}

/// Text ending with a newline, followed by the line `f`, ends with that line.
proof fn lemma_ends_with_line(a: Seq<char>, f: Seq<char>)
    requires
        a.len() > 0,
        a.last() == '\n',
    ensures
        ends_with_line(a + f + seq!['\n'], f),
{
    let t = a + f + seq!['\n'];
    assert(t.subrange(t.len() - f.len() - 2, t.len() as int) =~= seq!['\n'] + f + seq!['\n']);
}

/// A session from the line at index `i` on always closes: its last line is the quit
/// notice (when a line quits or the input runs out), a win, or a draw, on a line of
/// its own. It shows at most one turn per line of input and one more for the end of
/// the input.
pub proof fn lemma_session_closes(b: Seq<Option<Player>>, p: Player, input: Seq<char>, i: int)
    requires
        0 <= i <= input.len(),
    ensures
        ends_on_closing_line(session_text(b, p, input, i)),
        session_turns(b, p, input, i) <= lines_from(input, i) + 1,
    decreases input.len() - i,
{
    let end = line_end(input, i);
    lemma_line_end(input, i);
    let line = input.subrange(i, end);
    let reply = line_reply(b, p, line);
    let head = board_text(b) + prompt_text(p);
    let shown = head + reply.0;
    if reply.1 && i < input.len() {
        lemma_session_closes(board_after_line(b, p, line), player_after_line(b, p, line), input, end);
        lemma_closing_line_prefix(
            shown,
            session_text(board_after_line(b, p, line), player_after_line(b, p, line), input, end),
        );
    } else {
        if i == input.len() {
            assert(line =~= Seq::<char>::empty());
        }
        assert(!reply.1);
        reveal_strlit(", enter your move (1-9):\n");
        assert(head.last() == '\n');
        assert(board_text(b).last() == '\n');
        match line_action(line) {
            Ok(a) => {
                let b1 = board_after_action(b, p, a);
                match event_of(b, p, a) {
                    Event::Quit => {
                        lemma_ends_with_line(head, "Game exited."@);
                        assert(shown =~= head + "Game exited."@ + seq!['\n']);
                    },
                    Event::GameOver(st) => {
                        let pre = head + board_text(b1);
                        assert(pre.last() == '\n');
                        lemma_ends_with_line(pre, game_over_text(st));
                        assert(shown =~= pre + game_over_text(st) + seq!['\n']);
                    },
                    _ => {},
                }
            },
            Err(_) => {},
        }
    }
}

/// When a line ends the game with a move, the answer is the board with that move's
/// mark on it, then the closing line, and the session stops.
pub proof fn lemma_closing_board_shows_last_move(
    b: Seq<Option<Player>>,
    p: Player,
    line: Seq<char>,
    idx: usize,
)
    requires
        line_action(line) == Ok::<Action, ActionError>(Action::Move(idx)),
        move_outcome(b, p, idx as int) matches Ok(st) && st != Status::InProgress,
    ensures
        !line_reply(b, p, line).1,
        line_reply(b, p, line).0 == board_text(b.update(idx as int, Some(p))) + game_over_text(
            move_outcome(b, p, idx as int)->Ok_0,
        ) + seq!['\n'],
{
}

/// The board of a new game.
pub open spec fn empty_board() -> Seq<Option<Player>> {
    Seq::new(9, |i: int| None::<Player>)
}

/// Shows the board and asks the current player for a move.
pub fn show_turn(game: &Game, writer: &mut Vec<u8>) -> (r: Result<(), std::io::Error>)
    ensures
        r is Ok,
        final(writer)@ == old(writer)@ + encode_utf8(
            board_text(game.state.board@) + prompt_text(game.state.current_player),
        ),
{
    let _ = render_board(writer, game.board());
    let _ = prompt_move(writer, game.current_player());
    proof {
        lemma_encode_utf8_concat(
            board_text(game.state.board@),
            prompt_text(game.state.current_player),
        );
    }
    assert(writer@ =~= old(writer)@ + encode_utf8(
        board_text(game.state.board@) + prompt_text(game.state.current_player),
    ));
    Ok(())
}

/// Answers one line read from the terminal (`""` at the end of the input): writes the
/// answer and says whether the session goes on.
pub fn answer_line(game: &mut Game, line: &str, writer: &mut Vec<u8>) -> (r: Result<
    bool,
    std::io::Error,
>)
    ensures
        r == Ok::<bool, std::io::Error>(
            line_reply(old(game).state.board@, old(game).state.current_player, line@).1,
        ),
        final(writer)@ == old(writer)@ + encode_utf8(
            line_reply(old(game).state.board@, old(game).state.current_player, line@).0,
        ),
        final(game).state.board@ == board_after_line(
            old(game).state.board@,
            old(game).state.current_player,
            line@,
        ),
        final(game).state.current_player == player_after_line(
            old(game).state.board@,
            old(game).state.current_player,
            line@,
        ),
        line_action(line@) matches Ok(Action::Move(idx)) ==> (move_outcome(
            old(game).state.board@,
            old(game).state.current_player,
            idx as int,
        ) matches Ok(st) ==> (st != Status::InProgress ==> {
            &&& final(game).state.board@ == old(game).state.board@.update(
                idx as int,
                Some(old(game).state.current_player),
            )
            &&& final(writer)@ == old(writer)@ + encode_utf8(
                board_text(final(game).state.board@) + game_over_text(st) + seq!['\n'],
            )
        })),
{
    let chars = chars_of(line);
    Ok(answer_chars(game, &chars, writer))
}

fn answer_chars(game: &mut Game, line: &Vec<char>, writer: &mut Vec<u8>) -> (go_on: bool)
    ensures
        go_on == line_reply(old(game).state.board@, old(game).state.current_player, line@).1,
        final(writer)@ == old(writer)@ + encode_utf8(
            line_reply(old(game).state.board@, old(game).state.current_player, line@).0,
        ),
        final(game).state.board@ == board_after_line(
            old(game).state.board@,
            old(game).state.current_player,
            line@,
        ),
        final(game).state.current_player == player_after_line(
            old(game).state.board@,
            old(game).state.current_player,
            line@,
        ),
        line_action(line@) matches Ok(Action::Move(idx)) ==> (move_outcome(
            old(game).state.board@,
            old(game).state.current_player,
            idx as int,
        ) matches Ok(st) ==> (st != Status::InProgress ==> {
            &&& final(game).state.board@ == old(game).state.board@.update(
                idx as int,
                Some(old(game).state.current_player),
            )
            &&& final(writer)@ == old(writer)@ + encode_utf8(
                board_text(final(game).state.board@) + game_over_text(st) + seq!['\n'],
            )
        })),
{
    let action = match action_from_line(line) {
        Ok(a) => a,
        Err(e) => {
            let err_msg = GameMessage::from_error(&e);
            if let GameMessage::Error { message } = err_msg {
                let _ = write_line(writer, message.as_str());
            }
            return true;
        },
    };
    let event = game.process_action(action);
    let msg = GameMessage::from_event(game, &event);
    match msg {
        GameMessage::Update { message, .. } => {
            let _ = write_line(writer, message.as_str());
            true
        },
        GameMessage::Error { message } => {
            let _ = write_line(writer, message.as_str());
            true
        },
        GameMessage::Quit { message } => {
            let _ = write_line(writer, message.as_str());
            false
        },
        GameMessage::GameOver { board, message, .. } => {
            let _ = render_board(writer, &board);
            let _ = write_line(writer, message.as_str());
            proof {
                lemma_encode_utf8_concat(board_text(board@), message@ + seq!['\n']);
                assert(board_text(board@) + (message@ + seq!['\n']) =~= board_text(board@)
                    + message@ + seq!['\n']);
            }
            assert(writer@ =~= old(writer)@ + encode_utf8(
                board_text(board@) + message@ + seq!['\n'],
            ));
            false
        },
    }
}

/// Where the line that starts at `pos` ends.
fn find_line_end(chars: &Vec<char>, pos: usize) -> (end: usize)
    requires
        pos <= chars@.len(),
    ensures
        end == line_end(chars@, pos as int),
{
    let mut j: usize = pos;
    while j < chars.len() && chars[j] != '\n'
        invariant
            pos <= j <= chars@.len(),
            line_end(chars@, pos as int) == line_end(chars@, j as int),
        decreases chars@.len() - j,
    {
        j = j + 1;
    }
    if j < chars.len() {
        j + 1
    } else {
        j
    }
}

/// Plays a whole session on the terminal over `input`, the text the players type,
/// writing what the terminal shows to `output`.
pub fn run(input: &str, output: &mut Vec<u8>) -> (r: Result<(), std::io::Error>)
    ensures
        r is Ok,
        final(output)@ == old(output)@ + encode_utf8(
            session_text(empty_board(), Player::X, input@, 0),
        ),
{
    let chars = chars_of(input);
    let mut game = Game::new();
    assert(game.state.board@ =~= empty_board());
    let mut pos: usize = 0;
    let ghost mut shown: Seq<char> = Seq::empty();
    assert(output@ =~= old(output)@ + encode_utf8(shown));
    loop
        invariant_except_break
            shown + session_text(game.state.board@, game.state.current_player, chars@, pos as int)
                == session_text(empty_board(), Player::X, chars@, 0),
        invariant
            pos <= chars@.len(),
            chars@ == input@,
            output@ == old(output)@ + encode_utf8(shown),
        ensures
            shown == session_text(empty_board(), Player::X, chars@, 0),
        decreases chars@.len() - pos,
    {
        let ghost b = game.state.board@;
        let ghost p = game.state.current_player;
        let _ = show_turn(&game, output);
        let end = find_line_end(&chars, pos);
        proof {
            lemma_line_end(chars@, pos as int);
        }
        let line = copy_range(&chars, pos, end);
        let go_on = answer_chars(&mut game, &line, output);
        let ghost reply = line_reply(b, p, line@);
        let ghost step = board_text(b) + prompt_text(p) + reply.0;
        proof {
            lemma_encode_utf8_concat(board_text(b) + prompt_text(p), reply.0);
            lemma_encode_utf8_concat(shown, step);
            assert(output@ =~= old(output)@ + encode_utf8(shown + step));
        }
        if !go_on || pos >= chars.len() {
            proof {
                assert(session_text(b, p, chars@, pos as int) == step);
                assert(shown + step == session_text(empty_board(), Player::X, chars@, 0));
                shown = shown + step;
            }
            break;
        }
        proof {
            assert(session_text(b, p, chars@, pos as int) == step + session_text(
                game.state.board@,
                game.state.current_player,
                chars@,
                end as int,
            ));
            assert(shown + step + session_text(
                game.state.board@,
                game.state.current_player,
                chars@,
                end as int,
            ) =~= shown + (step + session_text(
                game.state.board@,
                game.state.current_player,
                chars@,
                end as int,
            )));
            shown = shown + step;
        }
        pos = end;
    }
    assert(shown == session_text(empty_board(), Player::X, chars@, 0));
    Ok(())
}

} // verus!
