use mrcat::editor::Outcome;
use mrcat::{center_banner, welcome_message, Command, Document, Editor, Key, Position, Row, Size};

fn size(width: u16, height: u16) -> Size {
    Size { width, height }
}

fn press_all(p: Position, keys: &[Key], s: Size) -> Position {
    let mut p = p;
    for k in keys {
        p = p.moved(*k, s);
    }
    p
}

fn describe(cmds: &[Command]) -> Vec<String> {
    cmds.iter()
        .map(|c| match c {
            Command::HideCursor => "hide".to_string(),
            Command::ShowCursor => "show".to_string(),
            Command::MoveCursor(p) => format!("move {} {}", p.x, p.y),
            Command::ClearScreen => "clear screen".to_string(),
            Command::ClearLine => "clear line".to_string(),
            Command::PrintLine(s) => format!("print {}", s),
        })
        .collect()
}

#[test]
fn left_and_up_stop_at_zero() {
    let s = size(10, 8);
    let p = press_all(Position { x: 2, y: 1 }, &[Key::Left, Key::Up, Key::Left, Key::Left, Key::Up, Key::Up], s);
    assert_eq!(p, Position { x: 0, y: 0 });
    let p = press_all(Position { x: 5, y: 4 }, &[Key::Left, Key::Up, Key::Left], s);
    assert_eq!(p, Position { x: 3, y: 3 });
}

#[test]
fn right_and_down_stop_at_edge() {
    let s = size(4, 3);
    let p = press_all(Position { x: 2, y: 1 }, &[Key::Right; 5], s);
    assert_eq!(p, Position { x: 4, y: 1 });
    let p = press_all(Position { x: 0, y: 0 }, &[Key::Down; 7], s);
    assert_eq!(p, Position { x: 0, y: 3 });
    let p = press_all(Position { x: 0, y: 0 }, &[Key::Right, Key::Down], s);
    assert_eq!(p, Position { x: 1, y: 1 });
}

#[test]
fn jump_keys_set_one_coordinate() {
    let s = size(10, 8);
    let p = Position { x: 3, y: 6 };
    assert_eq!(p.moved(Key::Home, s), Position { x: 0, y: 6 });
    assert_eq!(p.moved(Key::End, s), Position { x: 10, y: 6 });
    assert_eq!(p.moved(Key::PageUp, s), Position { x: 3, y: 0 });
    assert_eq!(p.moved(Key::PageDown, s), Position { x: 3, y: 8 });
    assert_eq!(press_all(p, &[Key::End, Key::End, Key::End], s), Position { x: 10, y: 6 });
    assert_eq!(press_all(p, &[Key::PageUp, Key::PageUp], s), Position { x: 3, y: 0 });
}

#[test]
fn other_keys_leave_cursor() {
    let s = size(10, 8);
    let p = Position { x: 3, y: 6 };
    assert_eq!(p.moved(Key::Char('a'), s), p);
    assert_eq!(p.moved(Key::Ctrl('q'), s), p);
    assert_eq!(p.moved(Key::Other, s), p);
}

#[test]
fn jump_round_trip_from_five_five() {
    let s = size(10, 8);
    let start = Position { x: 5, y: 5 };
    let a = press_all(start, &[Key::Home, Key::End, Key::PageUp, Key::PageDown], s);
    let b = press_all(start, &[Key::PageUp, Key::PageDown, Key::Home, Key::End], s);
    assert_eq!(a, Position { x: 10, y: 8 });
    assert_eq!(b, Position { x: 10, y: 8 });
}

#[test]
fn default_position_is_origin() {
    assert_eq!(Position::default(), Position { x: 0, y: 0 });
}

#[test]
fn banner_length_27_in_width_30() {
    let text = "MrCat Editor -- Version 0.1";
    assert_eq!(text.len(), 27);
    assert_eq!(center_banner(text, 30), format!("~{}", text));
}

#[test]
fn banner_length_5_in_width_20() {
    let line = center_banner("Hello", 20);
    assert_eq!(line, "~      Hello");
    assert_eq!(line.len(), 12);
}

#[test]
fn banner_truncated_to_width() {
    assert_eq!(center_banner("Hello", 3), "~He");
    assert_eq!(center_banner("Hello", 0), "");
    assert_eq!(welcome_message(10), "~MrCat Edi");
}

#[test]
fn welcome_message_centered() {
    let line = welcome_message(80);
    assert_eq!(line, format!("~{}MrCat Editor -- Version 0.1.0", " ".repeat(24)));
}

#[test]
fn row_render_windows_and_clips() {
    let row = Row::from_str("héllo world");
    assert_eq!(row.render(0, 5), "héllo");
    assert_eq!(row.render(6, 100), "world");
    assert_eq!(row.render(20, 30), "");
    assert_eq!(row.render(4, 2), "");
}

#[test]
fn document_row_lookup() {
    let doc = Document::from_rows(vec![Some(Row::from_str("a")), None, Some(Row::from_str("c"))]);
    assert_eq!(doc.row(0).map(|r| r.render(0, 10)), Some("a".to_string()));
    assert!(doc.row(1).is_none());
    assert_eq!(doc.row(2).map(|r| r.render(0, 10)), Some("c".to_string()));
    assert!(doc.row(3).is_none());
    assert!(Document::open().row(0).is_none());
}

#[test]
fn frame_with_gap_in_document() {
    let doc = Document::from_rows(vec![
        Some(Row::from_str("first row")),
        None,
        Some(Row::from_str("third row is long")),
    ]);
    let editor = Editor::with_document(doc);
    let frame = describe(&editor.refresh_screen(size(40, 5)));
    let banner = format!("print ~{}MrCat Editor -- Version 0.1.0", " ".repeat(4));
    assert_eq!(
        frame,
        vec![
            "hide".to_string(),
            "move 0 0".to_string(),
            "clear line".to_string(),
            "print first row".to_string(),
            banner,
            "clear line".to_string(),
            "print third row is long".to_string(),
            "clear line".to_string(),
            "print ~".to_string(),
            "move 0 0".to_string(),
            "show".to_string(),
        ]
    );
}

#[test]
fn frame_rows_windowed_to_width() {
    let doc = Document::from_rows(vec![Some(Row::from_str("abcdefgh"))]);
    let editor = Editor::with_document(doc);
    let frame = describe(&editor.refresh_screen(size(3, 2)));
    assert_eq!(frame, vec!["hide", "move 0 0", "clear line", "print abc", "move 0 0", "show"]);
}

#[test]
fn empty_frame_on_zero_height() {
    let editor = Editor::default();
    let frame = describe(&editor.refresh_screen(size(10, 0)));
    assert_eq!(frame, vec!["hide", "move 0 0", "move 0 0", "show"]);
}

#[test]
fn quit_key_ends_session() {
    let mut editor = Editor::default();
    let s = size(10, 8);
    assert_eq!(editor.process_keypress(Key::Down, s), Outcome::Moved);
    assert!(!editor.should_quit());
    assert_eq!(editor.process_keypress(Key::Ctrl('q'), s), Outcome::Quit);
    assert!(editor.should_quit());
    let frame = describe(&editor.refresh_screen(s));
    assert_eq!(frame, vec!["hide", "move 0 0", "clear screen", "print Goodbye", "show"]);
    assert_eq!(editor.process_keypress(Key::Up, s), Outcome::Moved);
    assert!(editor.should_quit());
}

#[test]
fn keypress_outcomes() {
    let mut editor = Editor::default();
    let s = size(10, 8);
    assert_eq!(editor.process_keypress(Key::Char('x'), s), Outcome::Unhandled);
    assert_eq!(editor.process_keypress(Key::Ctrl('w'), s), Outcome::Unhandled);
    assert_eq!(editor.process_keypress(Key::Other, s), Outcome::Unhandled);
    assert_eq!(editor.cursor_position(), Position { x: 0, y: 0 });
    assert_eq!(editor.process_keypress(Key::End, s), Outcome::Moved);
    assert_eq!(editor.process_keypress(Key::PageDown, s), Outcome::Moved);
    assert_eq!(editor.cursor_position(), Position { x: 10, y: 8 });
    assert!(!editor.should_quit());
}

#[test]
fn frame_shows_cursor_and_banner_on_empty_document() {
    let mut editor = Editor::default();
    let s = size(12, 4);
    editor.process_keypress(Key::Right, s);
    editor.process_keypress(Key::Down, s);
    let frame = describe(&editor.refresh_screen(s));
    assert_eq!(
        frame,
        vec!["hide", "move 0 0", "clear line", "print ~", "print ~MrCat Edito", "clear line", "print ~", "move 1 1", "show"]
    );
}
