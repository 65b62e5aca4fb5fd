//! The verified core of a terminal text editor: the lines of text that are
//! being edited, and the rules of the terminal session that shows them.

pub mod document;
pub mod error;
pub mod row;
pub mod sequence;
pub mod terminal;

pub use document::Document;
pub use error::TerminalError;
pub use row::Row;
pub use terminal::{Size, Terminal};
