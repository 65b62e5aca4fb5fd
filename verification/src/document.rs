//! The text that is being edited, as a sequence of rows.

use crate::row::Row;
use vstd::prelude::*;

verus! {

/// The text that is being edited.
///
/// A document owns its rows and keeps them in the order of the lines on the
/// screen. Nothing reorders or changes a row once it is in the document.
pub struct Document {
    rows: Vec<Row>,
}

impl View for Document {
    type V = Seq<Seq<char>>;

    /// The text of each row, in line order.
    open spec fn view(&self) -> Seq<Seq<char>> {
        self.rows().map_values(|row: Row| row@)
    }
}

impl Document {
    /// The line that a freshly opened document holds.
    pub open spec fn greeting() -> Seq<char> {
        "Hello there!"@
    }

    /// The rows of the document, in line order.
    pub closed spec fn rows(&self) -> Seq<Row> {
        self.rows@
    }

    /// What `row` finds at `index`: the row at that position, or nothing at
    /// or past the number of rows.
    pub open spec fn spec_row(&self, index: usize) -> Option<&Row> {
        if index < self.rows().len() {
            Some(&self.rows()[index as int])
        } else {
            None
        }
    }

    /// Whether the document has no row at all.
    pub open spec fn spec_is_empty(&self) -> bool {
        self.rows().len() == 0
    }

    /// Opens a document that holds the greeting as its only row.
    pub fn open() -> (document: Document)
        ensures
            document@ == seq![Self::greeting()],
            document.rows().len() == 1,
            document.rows()[0]@ == Self::greeting(),
    {
        let mut rows = Vec::new();
        rows.push(Row::from("Hello there!"));
        let document = Self { rows };
        assert(document@ =~= seq![Self::greeting()]);
        document
    }

    /// The row at `index`, counted from zero, or `None` where the document has
    /// no such row.
    ///
    /// An index that finds no row is an ordinary outcome, not a failure: the
    /// call neither fails nor panics on any index.
    #[verifier::when_used_as_spec(spec_row)]
    pub fn row(&self, index: usize) -> (found: Option<&Row>)
        ensures
            found == self.spec_row(index),
            index < self.rows().len() ==> found == Some(&self.rows()[index as int]),
            index >= self.rows().len() ==> found is None,
            index < self@.len() ==> (found matches Some(row) && row@ == self@[index as int]),
            index >= self@.len() ==> found is None,
    {
        self.rows.get(index)
    }

    /// Whether the document has no row at all.
    #[verifier::when_used_as_spec(spec_is_empty)]
    pub fn is_empty(&self) -> (empty: bool)
        ensures
            empty == self.spec_is_empty(),
    {
        self.rows.is_empty()
    }
}

impl Default for Document {
    /// A document without any row.
    fn default() -> (document: Document)
        ensures
            document@ == Seq::<Seq<char>>::empty(),
            document.rows() == Seq::<Row>::empty(),
    {
        let document = Document { rows: Vec::new() };
        assert(document@ =~= Seq::<Seq<char>>::empty());
        document
    }
}

/// A freshly opened document is never empty, and its first row is the
/// greeting, character for character.
pub proof fn opened_document_shows_greeting(document: Document)
    requires
        document@ == seq![Document::greeting()],
    ensures
        !document.is_empty(),
        document.row(0) matches Some(row) && row@ == "Hello there!"@,
        forall|index: usize| index >= 1 ==> document.row(index) is None,
{
    assert(document@.len() == 1);
    assert(document@[0] == Document::greeting());
}

} // verus!
