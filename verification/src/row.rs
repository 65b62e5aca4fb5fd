//! One line of text.

use vstd::prelude::*;

verus! {

/// One line of the text that is being edited.
///
/// A row is built from a string slice and never changes afterwards. Its view
/// is the sequence of its characters.
pub struct Row {
    string: String,
}

impl View for Row {
    type V = Seq<char>;

    closed spec fn view(&self) -> Seq<char> {
        self.string@
    }
}

impl Row {
    /// The text of the row.
    pub fn as_str(&self) -> (text: &str)
        ensures
            text@ == self@,
    {
        self.string.as_str()
    }
}

impl From<&str> for Row {
    /// A row that holds exactly the characters of `slice`.
    fn from(slice: &str) -> (row: Row)
        ensures
            row@ == slice@,
    {
        Row { string: slice.to_owned() }
    }
}

impl vstd::std_specs::convert::FromSpecImpl<&str> for Row {
    /// Conversion is specified by the `ensures` of `from`, over the view:
    /// no spec function builds a `String` from a sequence of characters.
    open spec fn obeys_from_spec() -> bool {
        false
    }

    open spec fn from_spec(slice: &str) -> Row {
        arbitrary()
    }
}

} // verus!
