//! A terminal front end that reports each outcome in its own words and reads any
//! unreadable command as invalid.
use crate::game::{is_quit_command, is_quit_word, Board, MarkSpaceError, Player};
use crate::interface::cli::{board_text, prompt_text};
use crate::text::{chars_of, parse_decimal, parse_usize, trim, trimmed, write_line};
use vstd::prelude::*;
use vstd::utf8::encode_utf8;

verus! {

/// A command read from the terminal.
#[derive(Debug, Copy, Clone, PartialEq, Eq, Structural)]
pub enum Action {
    /// Mark the space with this index (0 to 8).
    Move(usize),
    Quit,
    Invalid,
}

/// The command that a line read from the terminal gives: an empty read (the end of
/// the input) and `quit` or `q` in any case quit; a number from 1 to 9 marks that
/// space; anything else is invalid. White space around the line is ignored.
pub open spec fn ui_action_of(line: Seq<char>) -> Action {
    let t = trimmed(line);
    if line.len() == 0 || is_quit_command(t) {
        Action::Quit
    } else {
        match parse_usize(t) {
            Some(n) => if 1 <= n <= 9 {
                Action::Move((n - 1) as usize)
            } else {
                Action::Invalid
            },
            None => Action::Invalid,
        }
    }
}

/// Reads the command in `line`, the text of one read of a line ("" at the end of
/// the input).
pub fn get_action(line: &str) -> (a: Action)
    ensures
        a == ui_action_of(line@),
{
    let chars = chars_of(line);
    if chars.len() == 0 {
        return Action::Quit;
    }
    let t = trim(&chars);
    if is_quit_word(&t) {
        return Action::Quit;
    }
    match parse_decimal(&t) {
        Some(n) => if 1 <= n && n <= 9 {
            Action::Move(n - 1)
        } else {
            Action::Invalid
        },
        None => Action::Invalid,
    }
}

/// Writes the board: each space shows its mark, or its number when it is empty.
pub fn render_board(writer: &mut Vec<u8>, board: &Board) -> (r: Result<(), std::io::Error>)
    ensures
        r is Ok,
        final(writer)@ == old(writer)@ + encode_utf8(board_text(board@)),
{
    crate::interface::cli::render_board(writer, board)
}

/// Asks `player` for a move.
pub fn prompt_move(writer: &mut Vec<u8>, player: Player) -> (r: Result<(), std::io::Error>)
    ensures
        r is Ok,
        final(writer)@ == old(writer)@ + encode_utf8(prompt_text(player)),
{
    crate::interface::cli::prompt_move(writer, player)
}

/// Says that the command could not be read.
pub fn report_invalid_input(writer: &mut Vec<u8>) -> (r: Result<(), std::io::Error>)
    ensures
        r is Ok,
        final(writer)@ == old(writer)@ + encode_utf8(
            "Invalid input. Please enter a number between 1 and 9."@ + seq!['\n'],
        ),
{
    print(writer, "Invalid input. Please enter a number between 1 and 9.")
}

/// "Error: SpaceTaken. Try again.".
pub open spec fn error_report_text(e: MarkSpaceError) -> Seq<char> {
    "Error: "@ + e.name() + ". Try again."@
}

/// Says why a move was refused.
pub fn report_error(writer: &mut Vec<u8>, error: MarkSpaceError) -> (r: Result<
    (),
    std::io::Error,
>)
    ensures
        r is Ok,
        final(writer)@ == old(writer)@ + encode_utf8(error_report_text(error) + seq!['\n']),
{
    let mut msg = String::from_str("Error: ");
    msg.append(error.name_str());
    msg.append(". Try again.");
    print(writer, msg.as_str())
}

/// "Player X wins!".
pub open spec fn winner_text(p: Player) -> Seq<char> {
    "Player "@ + seq![p.symbol()] + " wins!"@
}

/// Announces the winner.
pub fn announce_winner(writer: &mut Vec<u8>, winner: Player) -> (r: Result<(), std::io::Error>)
    ensures
        r is Ok,
        final(writer)@ == old(writer)@ + encode_utf8(winner_text(winner) + seq!['\n']),
{
    let mut msg = String::from_str("Player ");
    msg.append(winner.symbol_str());
    msg.append(" wins!");
    print(writer, msg.as_str())
}

/// Announces a draw.
pub fn announce_draw(writer: &mut Vec<u8>) -> (r: Result<(), std::io::Error>)
    ensures
        r is Ok,
        final(writer)@ == old(writer)@ + encode_utf8("It's a Draw!"@ + seq!['\n']),
{
    print(writer, "It's a Draw!")
}

/// Announces that the game was left.
pub fn announce_quit(writer: &mut Vec<u8>) -> (r: Result<(), std::io::Error>)
    ensures
        r is Ok,
        final(writer)@ == old(writer)@ + encode_utf8("Game exited."@ + seq!['\n']),
{
    print(writer, "Game exited.")
}

/// Writes `msg` and a newline.
fn print(writer: &mut Vec<u8>, msg: &str) -> (r: Result<(), std::io::Error>)
    ensures
        r is Ok,
        final(writer)@ == old(writer)@ + encode_utf8(msg@ + seq!['\n']),
{
    write_line(writer, msg)
}

} // verus!
