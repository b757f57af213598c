//! A plain rendering of the board: its three rows, without the lines between them.
use crate::game::{Board, Player};
use crate::interface::cli::row_text;
use crate::text::write_str;
use vstd::prelude::*;
use vstd::utf8::encode_utf8;

verus! {

/// The three rows of the board, each space showing its mark or its number.
pub open spec fn rows_text(b: Seq<Option<Player>>) -> Seq<char> {
    row_text(b, 0) + row_text(b, 3) + row_text(b, 6)
}

/// Writes the three rows of the board to `writer`.
pub fn render_board(writer: &mut Vec<u8>, board: &Board)
    ensures
        final(writer)@ == old(writer)@ + encode_utf8(rows_text(board@)),
{
    let mut s = String::new();
    crate::interface::cli::append_row(&mut s, board, 0);
    crate::interface::cli::append_row(&mut s, board, 3);
    crate::interface::cli::append_row(&mut s, board, 6);
    assert(s@ =~= rows_text(board@));
    write_str(writer, s.as_str());
}

} // verus!
