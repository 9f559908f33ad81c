use vstd::prelude::*;

verus! {

/// A cursor position in viewport space: column `x`, row `y`.
#[derive(Clone, Copy, Debug, PartialEq, Eq, Structural)]
pub struct Position {
    pub x: usize,
    pub y: usize,
}

impl Default for Position {
    /// The origin, where the cursor starts.
    fn default() -> (r: Position)
        ensures
            r.x == 0,
            r.y == 0,
    {
        Position { x: 0, y: 0 }
    }
}

/// The dimensions of the viewport, in columns and rows.
#[derive(Clone, Copy, Debug, PartialEq, Eq, Structural)]
pub struct Size {
    pub width: u16,
    pub height: u16,
}

/// A decoded key press, as far as the editor tells keys apart.
#[derive(Clone, Copy, Debug, PartialEq, Eq, Structural)]
pub enum Key {
    Up,
    Down,
    Left,
    Right,
    PageUp,
    PageDown,
    Home,
    End,
    /// A character typed with the control modifier.
    Ctrl(char),
    /// A plain character.
    Char(char),
    /// Any other key.
    Other,
}

/// The key that ends the editing session.
pub open spec fn is_quit_key(key: Key) -> bool {
    key == Key::Ctrl('q')
}

/// The eight keys that move the cursor.
pub open spec fn is_movement_key(key: Key) -> bool {
    match key {
        Key::Up | Key::Down | Key::Left | Key::Right | Key::PageUp | Key::PageDown | Key::Home
        | Key::End => true,
        _ => false,
    }
}

/// The cursor rests inside the viewport, its edge included.
pub open spec fn in_bounds(p: Position, size: Size) -> bool {
    p.x <= size.width && p.y <= size.height
}

/// Where one key press takes the cursor. Up and Left stop at 0; Down and
/// Right advance only while below the viewport's height or width; the jump
/// keys go straight to an edge; any other key leaves the cursor where it is.
pub open spec fn moved(p: Position, key: Key, size: Size) -> Position {
    match key {
        Key::Up => Position { x: p.x, y: if p.y == 0 { 0 } else { (p.y - 1) as usize } },
        Key::Down => Position { x: p.x, y: if p.y < size.height { (p.y + 1) as usize } else { p.y } },
        Key::Left => Position { x: if p.x == 0 { 0 } else { (p.x - 1) as usize }, y: p.y },
        Key::Right => Position { x: if p.x < size.width { (p.x + 1) as usize } else { p.x }, y: p.y },
        Key::PageUp => Position { x: p.x, y: 0 },
        Key::PageDown => Position { x: p.x, y: size.height as usize },
        Key::Home => Position { x: 0, y: p.y },
        Key::End => Position { x: size.width as usize, y: p.y },
        _ => p,
    }
}

/// Where a sequence of key presses, applied in order, takes the cursor.
pub open spec fn moved_by(p: Position, keys: Seq<Key>, size: Size) -> Position
    decreases keys.len(),
{
    if keys.len() == 0 {
        p
    } else {
        moved(moved_by(p, keys.drop_last(), size), keys.last(), size)
    }
}

/// How many of `keys` are `k`.
pub open spec fn count_of(keys: Seq<Key>, k: Key) -> nat
    decreases keys.len(),
{
    if keys.len() == 0 {
        0
    } else {
        count_of(keys.drop_last(), k) + if keys.last() == k { 1nat } else { 0nat }
    }
}

/// Any sequence of Left and Up presses lowers each coordinate by one per
/// press of its key and stops it at 0: the cursor never leaves the top-left
/// corner behind.
pub proof fn lemma_left_up_clamp_at_zero(p: Position, keys: Seq<Key>, size: Size)
    requires
        forall|i: int| 0 <= i < keys.len() ==> keys[i] == Key::Left || keys[i] == Key::Up,
    ensures
        moved_by(p, keys, size).x == if p.x >= count_of(keys, Key::Left) {
            p.x - count_of(keys, Key::Left)
        } else {
            0
        },
        moved_by(p, keys, size).y == if p.y >= count_of(keys, Key::Up) {
            p.y - count_of(keys, Key::Up)
        } else {
            0
        },
    decreases keys.len(),
{
    if keys.len() > 0 {
        let rest = keys.drop_last();
        assert forall|i: int| 0 <= i < rest.len() implies rest[i] == Key::Left || rest[i]
            == Key::Up by {
            assert(rest[i] == keys[i]);
        }
        lemma_left_up_clamp_at_zero(p, rest, size);
        assert(keys.last() == keys[keys.len() - 1]);
    }
}

/// Any sequence of Right presses from a position inside the viewport
/// advances the column by one per press until it reaches the width, and
/// never beyond it; likewise Down presses for the row and the height.
pub proof fn lemma_right_down_clamp_at_edge(p: Position, keys: Seq<Key>, size: Size)
    requires
        in_bounds(p, size),
        forall|i: int| 0 <= i < keys.len() ==> keys[i] == Key::Right || keys[i] == Key::Down,
    ensures
        moved_by(p, keys, size).x == if p.x + count_of(keys, Key::Right) <= size.width {
            p.x + count_of(keys, Key::Right)
        } else {
            size.width as int
        },
        moved_by(p, keys, size).y == if p.y + count_of(keys, Key::Down) <= size.height {
            p.y + count_of(keys, Key::Down)
        } else {
            size.height as int
        },
    decreases keys.len(),
{
    if keys.len() > 0 {
        let rest = keys.drop_last();
        assert forall|i: int| 0 <= i < rest.len() implies rest[i] == Key::Right || rest[i]
            == Key::Down by {
            assert(rest[i] == keys[i]);
        }
        lemma_right_down_clamp_at_edge(p, rest, size);
        assert(keys.last() == keys[keys.len() - 1]);
    }
}

/// Whatever keys are pressed, a cursor inside the viewport stays inside it.
pub proof fn lemma_moves_stay_in_bounds(p: Position, keys: Seq<Key>, size: Size)
    requires
        in_bounds(p, size),
    ensures
        in_bounds(moved_by(p, keys, size), size),
    decreases keys.len(),
{
    if keys.len() > 0 {
        lemma_moves_stay_in_bounds(p, keys.drop_last(), size);
    }
}

/// Home, End, PageUp and PageDown set one coordinate to a fixed value
/// whatever it was before, leave the other one alone, and pressing the same
/// key again changes nothing.
pub proof fn lemma_jump_keys(p: Position, key: Key, size: Size)
    requires
        key == Key::Home || key == Key::End || key == Key::PageUp || key == Key::PageDown,
    ensures
        key == Key::Home ==> moved(p, key, size) == (Position { x: 0, y: p.y }),
        key == Key::End ==> moved(p, key, size) == (Position { x: size.width as usize, y: p.y }),
        key == Key::PageUp ==> moved(p, key, size) == (Position { x: p.x, y: 0 }),
        key == Key::PageDown ==> moved(p, key, size) == (Position {
            x: p.x,
            y: size.height as usize,
        }),
        moved(moved(p, key, size), key, size) == moved(p, key, size),
{
}

/// Home, End, PageUp, PageDown from any position end at the bottom-right
/// edge, and so does the order PageUp, PageDown, Home, End: the two pairs
/// act on different coordinates.
pub proof fn lemma_jump_sequence_order_free(p: Position, size: Size)
    ensures
        moved_by(p, seq![Key::Home, Key::End, Key::PageUp, Key::PageDown], size) == (Position {
            x: size.width as usize,
            y: size.height as usize,
        }),
        moved_by(p, seq![Key::PageUp, Key::PageDown, Key::Home, Key::End], size) == (Position {
            x: size.width as usize,
            y: size.height as usize,
        }),
{
    let a = seq![Key::Home, Key::End, Key::PageUp, Key::PageDown];
    let b = seq![Key::PageUp, Key::PageDown, Key::Home, Key::End];
    assert(a.drop_last().drop_last().drop_last().drop_last() =~= Seq::<Key>::empty());
    assert(b.drop_last().drop_last().drop_last().drop_last() =~= Seq::<Key>::empty());
    reveal_with_fuel(moved_by, 5);
}

impl Position {
    /// The position after one key press in a viewport of `size`.
    pub fn moved(self, key: Key, size: Size) -> (r: Position)
        ensures
            r == moved(self, key, size),
    {
        let mut x = self.x;
        let mut y = self.y;
        let height = size.height as usize;
        let width = size.width as usize;
        match key {
            Key::Up => y = y.saturating_sub(1),
            Key::Down => {
                if y < height {
                    y = y + 1;
                }
            },
            Key::Left => x = x.saturating_sub(1),
            Key::Right => {
                if x < width {
                    x = x + 1;
                }
            },
            Key::PageUp => y = 0,
            Key::PageDown => y = height,
            Key::Home => x = 0,
            Key::End => x = width,
            _ => {},
        }
        Position { x, y }
    }
}

} // verus!
