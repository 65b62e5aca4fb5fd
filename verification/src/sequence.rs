//! The control sequences that drive the screen and the cursor.
//!
//! The sequences themselves come from `termion`. Each function here asks
//! `termion` for one of them and states, without proof, which characters it
//! holds.

use vstd::prelude::*;

verus! {

/// The sequence that erases the whole screen.
pub open spec fn clear_all() -> Seq<char> {
    "\x1B[2J"@
}

/// The sequence that erases the line on which the cursor stands.
pub open spec fn clear_line() -> Seq<char> {
    "\x1B[2K"@
}

/// The sequence that makes the cursor invisible.
pub open spec fn hide_cursor() -> Seq<char> {
    "\x1B[?25l"@
}

/// The sequence that makes the cursor visible.
pub open spec fn show_cursor() -> Seq<char> {
    "\x1B[?25h"@
}

/// The character that stands for a value below ten.
pub open spec fn digit(value: nat) -> char {
    "0123456789"@[value as int]
}

/// A number in decimal notation, without a sign or leading zeros.
pub open spec fn decimal(value: nat) -> Seq<char>
    decreases value,
{
    if value < 10 {
        seq![digit(value)]
    } else {
        decimal(value / 10).push(digit(value % 10))
    }
}

/// The sequence that moves the cursor to a column and a line, both counted
/// from one. The line comes first.
pub open spec fn goto(column: u16, line: u16) -> Seq<char> {
    "\x1B["@ + decimal(line as nat) + ";"@ + decimal(column as nat) + "H"@
}

/// Formats `termion::clear::All`.
///
/// Trusted: `termion` writes the introducer `ESC [` and then `2J`.
#[verifier::external_body]
pub(crate) fn format_clear_all() -> (sequence: String)
    ensures
        sequence@ == clear_all(),
{
    format!("{}", termion::clear::All)
}

/// Formats `termion::clear::CurrentLine`.
///
/// Trusted: `termion` writes the introducer `ESC [` and then `2K`.
#[verifier::external_body]
pub(crate) fn format_clear_line() -> (sequence: String)
    ensures
        sequence@ == clear_line(),
{
    format!("{}", termion::clear::CurrentLine)
}

/// Formats `termion::cursor::Hide`.
///
/// Trusted: `termion` writes the introducer `ESC [` and then `?25l`.
#[verifier::external_body]
pub(crate) fn format_hide_cursor() -> (sequence: String)
    ensures
        sequence@ == hide_cursor(),
{
    format!("{}", termion::cursor::Hide)
}

/// Formats `termion::cursor::Show`.
///
/// Trusted: `termion` writes the introducer `ESC [` and then `?25h`.
#[verifier::external_body]
pub(crate) fn format_show_cursor() -> (sequence: String)
    ensures
        sequence@ == show_cursor(),
{
    format!("{}", termion::cursor::Show)
}

/// Formats `termion::cursor::Goto` for a one-based column and line.
///
/// Trusted: `termion` writes the introducer `ESC [`, the line in decimal, a
/// semicolon, the column in decimal, and `H`. It rejects the position whose
/// column and line are both zero, which the precondition leaves out.
#[verifier::external_body]
pub(crate) fn format_goto(column: u16, line: u16) -> (sequence: String)
    requires
        column != 0 || line != 0,
    ensures
        sequence@ == goto(column, line),
{
    format!("{}", termion::cursor::Goto(column, line))
}

} // verus!
