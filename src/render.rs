use vstd::prelude::*;
use vstd::string::{StrSliceExecFns, StringExecFns};
use crate::cursor::Position;

verus! {

/// One terminal operation of a frame, as a command for the front end.
#[derive(Debug)]
pub enum Command {
    HideCursor,
    ShowCursor,
    /// Move the terminal cursor to the given position.
    MoveCursor(Position),
    ClearScreen,
    ClearLine,
    /// Print the text, then end the line.
    PrintLine(String),
}

/// The mathematical content of a `Command`.
pub enum Paint {
    HideCursor,
    ShowCursor,
    MoveCursor(Position),
    ClearScreen,
    ClearLine,
    PrintLine(Seq<char>),
}

impl View for Command {
    type V = Paint;

    open spec fn view(&self) -> Paint {
        match self {
            Command::HideCursor => Paint::HideCursor,
            Command::ShowCursor => Paint::ShowCursor,
            Command::MoveCursor(p) => Paint::MoveCursor(*p),
            Command::ClearScreen => Paint::ClearScreen,
            Command::ClearLine => Paint::ClearLine,
            Command::PrintLine(s) => Paint::PrintLine(s@),
        }
    }
}

/// The texts of a sequence of commands.
pub open spec fn paints(cmds: Seq<Command>) -> Seq<Paint> {
    cmds.map_values(|c: Command| c@)
}

/// The centered banner line for `text` in `width` columns: half of the
/// columns left over, less one for the leading `~`, as spaces, then the
/// text, all cut to `width` columns.
pub open spec fn banner_line(text: Seq<char>, width: nat) -> Seq<char> {
    let padding: nat = if width >= text.len() { ((width - text.len()) as nat) / 2 } else { 0 };
    let spaces: nat = if padding >= 1 { (padding - 1) as nat } else { 0 };
    let full = seq!['~'] + Seq::new(spaces, |_i: int| ' ') + text;
    if full.len() <= width {
        full
    } else {
        full.subrange(0, width as int)
    }
}

/// The text of the startup banner.
pub open spec fn welcome_text() -> Seq<char> {
    "MrCat Editor -- Version 0.1.0"@
}

/// The farewell line printed when the session ends.
pub open spec fn farewell_text() -> Seq<char> {
    "Goodbye"@
}

/// `text` centered in `width` columns behind a leading `~`, cut to `width`.
pub fn center_banner(text: &str, width: usize) -> (r: String)
    ensures
        r@ == banner_line(text@, width as nat),
{
    let len = text.unicode_len();
    let padding = width.saturating_sub(len) / 2;
    let spaces = padding.saturating_sub(1);
    let mut line = String::from_str("~");
    proof {
        reveal_strlit("~");
        reveal_strlit(" ");
    }
    let mut i: usize = 0;
    while i < spaces
        invariant
            i <= spaces,
            line@ == seq!['~'] + Seq::new(i as nat, |_i: int| ' '),
        decreases spaces - i,
    {
        line.append(" ");
        proof {
            reveal_strlit(" ");
        }
        i = i + 1;
        assert(line@ =~= seq!['~'] + Seq::new(i as nat, |_i: int| ' '));
    }
    line.append(text);
    let full_len = line.as_str().unicode_len();
    if full_len <= width {
        line
    } else {
        String::from_str(line.as_str().substring_char(0, width))
    }
}

/// The startup banner, centered in `width` columns.
pub fn welcome_message(width: usize) -> (r: String)
    ensures
        r@ == banner_line(welcome_text(), width as nat),
{
    center_banner("MrCat Editor -- Version 0.1.0", width)
}

} // verus!
