use vstd::prelude::*;
use vstd::string::{StrSliceExecFns, StringExecFns};

verus! {

/// The text of a row, windowed to the display columns `[start, end)`,
/// clipped to the text's length.
pub open spec fn window(text: Seq<char>, start: nat, end: nat) -> Seq<char> {
    let e = if end <= text.len() { end } else { text.len() };
    let b = if start <= e { start } else { e };
    text.subrange(b as int, e as int)
}

/// One line of text held by a document.
pub struct Row {
    string: String,
}

impl View for Row {
    type V = Seq<char>;

    closed spec fn view(&self) -> Seq<char> {
        self.string@
    }
}

impl Row {
    /// A row holding `text`.
    pub fn from_str(text: &str) -> (r: Row)
        ensures
            r@ == text@,
    {
        Row { string: String::from_str(text) }
    }

    /// The characters of the row in the columns `[start, end)`, clipped to the
    /// row's length.
    pub fn render(&self, start: usize, end: usize) -> (r: String)
        ensures
            r@ == window(self@, start as nat, end as nat),
    {
        let text = self.string.as_str();
        let len = text.unicode_len();
        let e = if end <= len { end } else { len };
        let b = if start <= e { start } else { e };
        String::from_str(text.substring_char(b, e))
    }
}

/// A buffer of rows, looked up by index. An index may hold no row.
pub struct Document {
    rows: Vec<Option<Row>>,
}

/// The texts of a document's rows by index; `None` where no row is held.
pub open spec fn row_texts(rows: Seq<Option<Row>>) -> Seq<Option<Seq<char>>> {
    rows.map_values(|r: Option<Row>| match r {
        Some(row) => Some(row@),
        None => None,
    })
}

impl View for Document {
    type V = Seq<Option<Seq<char>>>;

    closed spec fn view(&self) -> Seq<Option<Seq<char>>> {
        row_texts(self.rows@)
    }
}

/// The text of the row at `index` in a document viewed as `doc`, if any.
pub open spec fn row_at(doc: Seq<Option<Seq<char>>>, index: int) -> Option<Seq<char>> {
    if 0 <= index < doc.len() {
        doc[index]
    } else {
        None
    }
}

impl Document {
    /// An empty document: no index holds a row.
    pub fn open() -> (r: Document)
        ensures
            r@ == Seq::<Option<Seq<char>>>::empty(),
    {
        Document { rows: Vec::new() }
    }

    /// A document whose row at each index is the entry of `rows` there.
    pub fn from_rows(rows: Vec<Option<Row>>) -> (r: Document)
        ensures
            r@ == row_texts(rows@),
    {
        Document { rows }
    }

    /// The row at `index`, or `None` where the document holds none.
    pub fn row(&self, index: usize) -> (r: Option<&Row>)
        ensures
            row_at(self@, index as int) == match r {
                Some(row) => Some(row@),
                None => None::<Seq<char>>,
            },
    {
        if index < self.rows.len() {
            match &self.rows[index] {
                Some(row) => Some(row),
                None => None,
            }
        } else {
            None
        }
    }
}

} // verus!
