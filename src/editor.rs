use vstd::prelude::*;
use crate::cursor::{is_movement_key, is_quit_key, moved, Key, Position, Size};
use crate::document::{row_at, window, Document, Row};
use crate::render::{
    banner_line, farewell_text, paints, welcome_message, welcome_text, Command, Paint,
};
use vstd::string::StringExecFns;

verus! {

/// What an editor is, mathematically: its quit flag, its cursor and the
/// texts of its document's rows.
pub struct EditorState {
    pub should_quit: bool,
    pub cursor: Position,
    pub document: Seq<Option<Seq<char>>>,
}

/// How a key press was handled.
#[derive(Clone, Copy, Debug, PartialEq, Eq, Structural)]
pub enum Outcome {
    /// The quit key: the session ends after the next frame.
    Quit,
    /// A movement key: the cursor was moved.
    Moved,
    /// Any other key: nothing changed; the front end may echo it.
    Unhandled,
}

/// How a key press is handled.
pub open spec fn outcome_of(key: Key) -> Outcome {
    if is_quit_key(key) {
        Outcome::Quit
    } else if is_movement_key(key) {
        Outcome::Moved
    } else {
        Outcome::Unhandled
    }
}

/// The editor after one key press: the quit key sets the quit flag, a
/// movement key moves the cursor, any other key changes nothing.
pub open spec fn after_key(s: EditorState, key: Key, size: Size) -> EditorState {
    if is_quit_key(key) {
        EditorState { should_quit: true, cursor: s.cursor, document: s.document }
    } else if is_movement_key(key) {
        EditorState {
            should_quit: s.should_quit,
            cursor: moved(s.cursor, key, size),
            document: s.document,
        }
    } else {
        s
    }
}

/// The placeholder drawn on a viewport row past the document's rows.
pub open spec fn placeholder_text() -> Seq<char> {
    "~"@
}

/// The origin of the screen.
pub open spec fn origin() -> Position {
    Position { x: 0, y: 0 }
}

/// What is drawn on viewport row `r`: the document's row there, windowed to
/// the width; else, at a third of the height, the banner; else `~`.
pub open spec fn row_paint(doc: Seq<Option<Seq<char>>>, r: nat, size: Size) -> Seq<Paint> {
    match row_at(doc, r as int) {
        Some(text) => seq![Paint::ClearLine, Paint::PrintLine(window(text, 0, size.width as nat))],
        None => if r == size.height / 3 {
            seq![Paint::PrintLine(banner_line(welcome_text(), size.width as nat))]
        } else {
            seq![Paint::ClearLine, Paint::PrintLine(placeholder_text())]
        },
    }
}

/// What is drawn on the viewport rows `0..n`, in order.
pub open spec fn rows_paint(doc: Seq<Option<Seq<char>>>, n: nat, size: Size) -> Seq<Paint>
    decreases n,
{
    if n == 0 {
        Seq::empty()
    } else {
        rows_paint(doc, (n - 1) as nat, size) + row_paint(doc, (n - 1) as nat, size)
    }
}

/// The number of viewport rows a frame draws: all but the last.
pub open spec fn drawn_rows(size: Size) -> nat {
    if size.height == 0 { 0 } else { (size.height - 1) as nat }
}

/// The frame that ends a session: the screen cleared, then one farewell line.
pub open spec fn farewell_frame() -> Seq<Paint> {
    seq![
        Paint::HideCursor,
        Paint::MoveCursor(origin()),
        Paint::ClearScreen,
        Paint::PrintLine(farewell_text()),
        Paint::ShowCursor,
    ]
}

/// The frame drawn for an editor in state `s` on a viewport of `size`.
pub open spec fn frame(s: EditorState, size: Size) -> Seq<Paint> {
    if s.should_quit {
        farewell_frame()
    } else {
        seq![Paint::HideCursor, Paint::MoveCursor(origin())] + rows_paint(
            s.document,
            drawn_rows(size),
            size,
        ) + seq![Paint::MoveCursor(s.cursor), Paint::ShowCursor]
    }
}

/// The editor: a quit flag, a cursor and a document.
pub struct Editor {
    should_quit: bool,
    document: Document,
    cursor_position: Position,
}

impl View for Editor {
    type V = EditorState;

    closed spec fn view(&self) -> EditorState {
        EditorState {
            should_quit: self.should_quit,
            cursor: self.cursor_position,
            document: self.document@,
        }
    }
}

impl Editor {
    /// A fresh editor: not quitting, the cursor at the origin, an empty
    /// document.
    pub fn default() -> (r: Editor)
        ensures
            !r@.should_quit,
            r@.cursor == origin(),
            r@.document == Seq::<Option<Seq<char>>>::empty(),
    {
        Editor { should_quit: false, document: Document::open(), cursor_position: Position { x: 0, y: 0 } }
    }

    /// A fresh editor on `document`.
    pub fn with_document(document: Document) -> (r: Editor)
        ensures
            !r@.should_quit,
            r@.cursor == origin(),
            r@.document == document@,
    {
        Editor { should_quit: false, document, cursor_position: Position { x: 0, y: 0 } }
    }

    /// Whether the session is over: once it is, no further key is read.
    pub fn should_quit(&self) -> (r: bool)
        ensures
            r == self@.should_quit,
    {
        self.should_quit
    }

    /// The cursor's position.
    pub fn cursor_position(&self) -> (r: Position)
        ensures
            r == self@.cursor,
    {
        self.cursor_position
    }

    /// Handles one key press on a viewport of `size`.
    pub fn process_keypress(&mut self, key: Key, size: Size) -> (r: Outcome)
        ensures
            final(self)@ == after_key(old(self)@, key, size),
            r == outcome_of(key),
    {
        match key {
            Key::Ctrl(c) => {
                if c == 'q' {
                    self.should_quit = true;
                    Outcome::Quit
                } else {
                    Outcome::Unhandled
                }
            },
            Key::Up | Key::Down | Key::Left | Key::Right | Key::PageUp | Key::PageDown
            | Key::Home | Key::End => {
                self.move_cursor(key, size);
                Outcome::Moved
            },
            _ => Outcome::Unhandled,
        }
    }

    /// Moves the cursor by one key press on a viewport of `size`.
    pub fn move_cursor(&mut self, key: Key, size: Size)
        ensures
            final(self)@ == (EditorState { cursor: moved(old(self)@.cursor, key, size), ..old(self)@ }),
    {
        self.cursor_position = self.cursor_position.moved(key, size);
    }

    /// The text drawn for a document row: its first `width` columns.
    pub fn draw_row(&self, row: &Row, size: Size) -> (r: String)
        ensures
            r@ == window(row@, 0, size.width as nat),
    {
        row.render(0, size.width as usize)
    }

    /// The startup banner, centered in the viewport's width.
    pub fn draw_welcome_message(&self, size: Size) -> (r: String)
        ensures
            r@ == banner_line(welcome_text(), size.width as nat),
    {
        welcome_message(size.width as usize)
    }

    /// Appends to `out` the commands that draw every viewport row but the last.
    pub fn draw_rows(&self, size: Size, out: &mut Vec<Command>)
        ensures
            paints(final(out)@) == paints(old(out)@) + rows_paint(self@.document, drawn_rows(size), size),
    {
        let rows: u16 = if size.height == 0 { 0 } else { size.height - 1 };
        let mut r: u16 = 0;
        while r < rows
            invariant
                r <= rows,
                rows == drawn_rows(size),
                paints(out@) == paints(old(out)@) + rows_paint(self@.document, r as nat, size),
            decreases rows - r,
        {
            let ghost before = out@;
            match self.document.row(r as usize) {
                Some(row) => {
                    out.push(Command::ClearLine);
                    out.push(Command::PrintLine(self.draw_row(row, size)));
                },
                None => {
                    if r == size.height / 3 {
                        out.push(Command::PrintLine(self.draw_welcome_message(size)));
                    } else {
                        out.push(Command::ClearLine);
                        let placeholder = String::from_str("~");
                        out.push(Command::PrintLine(placeholder));
                    }
                },
            }
            assert(paints(out@) =~= paints(before) + row_paint(self@.document, r as nat, size));
            assert(rows_paint(self@.document, (r + 1) as nat, size) == rows_paint(self@.document, r as nat, size) + row_paint(self@.document, r as nat, size));
            r = r + 1;
            assert(paints(out@) =~= paints(old(out)@) + rows_paint(self@.document, r as nat, size));
        }
    }

    /// The commands that draw one frame for the editor's state.
    pub fn refresh_screen(&self, size: Size) -> (r: Vec<Command>)
        ensures
            paints(r@) == frame(self@, size),
    {
        let mut out: Vec<Command> = Vec::new();
        out.push(Command::HideCursor);
        out.push(Command::MoveCursor(Position { x: 0, y: 0 }));
        assert(paints(out@) =~= seq![Paint::HideCursor, Paint::MoveCursor(origin())]);
        if self.should_quit {
            out.push(Command::ClearScreen);
            out.push(Command::PrintLine(String::from_str("Goodbye")));
            out.push(Command::ShowCursor);
            assert(paints(out@) =~= farewell_frame());
        } else {
            self.draw_rows(size, &mut out);
            let ghost drawn = out@;
            out.push(Command::MoveCursor(self.cursor_position));
            out.push(Command::ShowCursor);
            assert(paints(out@) =~= paints(drawn) + seq![Paint::MoveCursor(self@.cursor), Paint::ShowCursor]);
        }
        out
    }
}

/// The quit key, pressed in any state, ends the session: the flag is set and
/// stays set whatever key follows, the next frame clears the screen and then
/// prints exactly one line, the farewell, and no key is read after it.
pub proof fn lemma_quit_ends_session(s: EditorState, key: Key, size: Size)
    ensures
        after_key(s, Key::Ctrl('q'), size).should_quit,
        after_key(after_key(s, Key::Ctrl('q'), size), key, size).should_quit,
        frame(after_key(s, Key::Ctrl('q'), size), size) == farewell_frame(),
        farewell_frame()[2] == Paint::ClearScreen,
        farewell_frame()[3] == Paint::PrintLine(farewell_text()),
        forall|i: int|
            0 <= i < farewell_frame().len() && (farewell_frame()[i] is PrintLine) ==> i == 3,
{
}

} // verus!
