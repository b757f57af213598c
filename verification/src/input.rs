//! Reading a move as a bare number.
use crate::text::{chars_of, parse_decimal, parse_usize, trim, trimmed};
use vstd::prelude::*;

verus! {

/// The space that a line names: a number from 1 to 9, white space around it
/// ignored, gives that space counted from 0; anything else gives none.
pub open spec fn move_of(line: Seq<char>) -> Option<usize> {
    match parse_usize(trimmed(line)) {
        Some(n) => if 1 <= n <= 9 {
            Some((n - 1) as usize)
        } else {
            None
        },
        None => None,
    }
}

/// Reads a move from `line`, the text of one read of a line ("" when nothing could
/// be read).
pub fn get_move(line: &str) -> (m: Option<usize>)
    ensures
        m == move_of(line@),
{
    let chars = chars_of(line);
    let t = trim(&chars);
    match parse_decimal(&t) {
        Some(n) => if n >= 1 && n <= 9 {
            Some(n - 1)
        } else {
            None
        },
        None => None,
    }
}

} // verus!
