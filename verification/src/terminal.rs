//! The terminal session: its size, its control sequences and its outcomes.

use crate::error::TerminalError;
use crate::sequence;
use termion::event::Key;
use vstd::prelude::*;

verus! {

/// A key press as `termion` decodes it. The library hands such a value on
/// and never looks inside.
#[verifier::external_type_specification]
#[verifier::external_body]
pub struct ExKey(termion::event::Key);

/// The error of a standard stream. The library only tells it from success.
#[verifier::external_type_specification]
#[verifier::external_body]
pub struct ExIoError(std::io::Error);

/// The dimensions of the terminal, in character cells.
#[derive(Clone, Copy, Debug, PartialEq, Eq, Structural)]
pub struct Size {
    /// The number of columns.
    pub width: u16,
    /// The number of lines.
    pub height: u16,
}

impl Size {
    /// Turns the answer of the environment to the query for its size, columns
    /// first, into a `Size`.
    ///
    /// Without an answer there is no usable terminal.
    pub fn detect(reported: Result<(u16, u16), std::io::Error>) -> (size: Result<
        Size,
        TerminalError,
    >)
        ensures
            size == match reported {
                Ok(dimensions) => Ok::<Size, TerminalError>(
                    (Size { width: dimensions.0, height: dimensions.1 }),
                ),
                Err(_) => Err::<Size, TerminalError>(TerminalError::TerminalUnavailable),
            },
    {
        match reported {
            Ok(dimensions) => Ok(Size { width: dimensions.0, height: dimensions.1 }),
            Err(_) => Err(TerminalError::TerminalUnavailable),
        }
    }
}

/// The coordinate that the terminal uses for a coordinate counted from zero:
/// one more, and the largest coordinate where there is no larger one.
pub open spec fn one_based(coordinate: u16) -> u16 {
    if coordinate < u16::MAX {
        (coordinate + 1) as u16
    } else {
        u16::MAX
    }
}

/// Counting from one never wraps around: the result is never zero and never
/// below the coordinate it came from, and the largest coordinate is kept as
/// it is.
pub proof fn one_based_never_wraps(coordinate: u16)
    ensures
        one_based(coordinate) >= 1,
        one_based(coordinate) >= coordinate,
        coordinate < u16::MAX ==> one_based(coordinate) == coordinate + 1,
        coordinate == u16::MAX ==> one_based(coordinate) == u16::MAX,
{
}

/// At the largest column the cursor is sent to column 65535, whatever the
/// line is.
pub proof fn largest_column_is_kept(y: u16)
    ensures
        sequence::goto(one_based(u16::MAX), one_based(y)) == "\x1B["@ + sequence::decimal(
            one_based(y) as nat,
        ) + ";65535H"@,
{
    reveal_strlit("0123456789");
    reveal_strlit(";");
    reveal_strlit("H");
    reveal_strlit(";65535H");
    reveal_with_fuel(sequence::decimal, 5);
    assert(";"@ + sequence::decimal(65535) + "H"@ =~= ";65535H"@);
}

/// The controller of a terminal session in raw mode.
///
/// It records the size that the terminal had when the session began. The
/// size is a snapshot: no operation changes it. Its view is that size.
pub struct Terminal {
    size: Size,
}

impl View for Terminal {
    type V = Size;

    closed spec fn view(&self) -> Size {
        self.size
    }
}

impl Terminal {
    /// Completes the set-up of a session for a terminal of the given size,
    /// from the outcome of enabling raw mode.
    ///
    /// The session exists exactly when raw mode is on.
    pub fn default(size: Size, raw_mode: Result<(), std::io::Error>) -> (terminal: Result<
        Terminal,
        TerminalError,
    >)
        ensures
            match raw_mode {
                Ok(_) => terminal matches Ok(session) && session@ == size,
                Err(_) => terminal matches Err(error) && error
                    == TerminalError::TerminalUnavailable,
            },
    {
        match raw_mode {
            Ok(_) => Ok(Terminal { size }),
            Err(_) => Err(TerminalError::TerminalUnavailable),
        }
    }

    /// The size that the terminal had when the session began.
    ///
    /// Every call on one controller returns the same value.
    pub fn size(&self) -> (size: &Size)
        ensures
            *size == self@,
    {
        &self.size
    }

    /// The characters to write in order to erase the whole screen.
    pub fn clear_screen() -> (sequence: String)
        ensures
            sequence@ == sequence::clear_all(),
    {
        sequence::format_clear_all()
    }

    /// The characters to write in order to move the cursor to column `x` and
    /// line `y`, both counted from zero.
    ///
    /// The terminal counts from one, so each coordinate grows by one. The
    /// largest coordinate stays as it is and does not wrap around.
    pub fn cursor_position(x: u16, y: u16) -> (sequence: String)
        ensures
            sequence@ == sequence::goto(one_based(x), one_based(y)),
    {
        sequence::format_goto(x.saturating_add(1), y.saturating_add(1))
    }

    /// Turns the outcome of flushing the output into the result of the
    /// operation.
    pub fn flush(flushed: Result<(), std::io::Error>) -> (outcome: Result<(), TerminalError>)
        ensures
            outcome == match flushed {
                Ok(_) => Ok::<(), TerminalError>(()),
                Err(_) => Err::<(), TerminalError>(TerminalError::IoFailure),
            },
    {
        match flushed {
            Ok(_) => Ok(()),
            Err(_) => Err(TerminalError::IoFailure),
        }
    }

    /// Decides what one poll of the input means for a caller that waits for
    /// a key.
    ///
    /// `None` says that there is no key yet and that the input has to be
    /// polled again. A key ends the wait, and so does a failure of the input.
    pub fn read_key(polled: Option<Result<Key, std::io::Error>>) -> (outcome: Option<
        Result<Key, TerminalError>,
    >)
        ensures
            outcome == match polled {
                None => None::<Result<Key, TerminalError>>,
                Some(Ok(key)) => Some(Ok::<Key, TerminalError>(key)),
                Some(Err(_)) => Some(Err::<Key, TerminalError>(TerminalError::IoFailure)),
            },
    {
        match polled {
            None => None,
            Some(Ok(key)) => Some(Ok(key)),
            Some(Err(_)) => Some(Err(TerminalError::IoFailure)),
        }
    }

    /// The characters to write in order to make the cursor invisible.
    pub fn cursor_hide() -> (sequence: String)
        ensures
            sequence@ == sequence::hide_cursor(),
    {
        sequence::format_hide_cursor()
    }

    /// The characters to write in order to make the cursor visible.
    pub fn cursor_show() -> (sequence: String)
        ensures
            sequence@ == sequence::show_cursor(),
    {
        sequence::format_show_cursor()
    }

    /// The characters to write in order to erase the line on which the
    /// cursor stands.
    pub fn clear_current_line() -> (sequence: String)
        ensures
            sequence@ == sequence::clear_line(),
    {
        sequence::format_clear_line()
    }
}

} // verus!
