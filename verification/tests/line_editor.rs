use crossterm::event::{KeyCode, KeyModifiers};
use dialog::keys::Key;
use dialog::line_buffer::{LineBuffer, TextMode};
use dialog::render::DrawOp;
use dialog::utils::Position;

fn editor(window: usize, cap: usize, mode: TextMode) -> LineBuffer {
    LineBuffer::new(window, cap, Position { x: 10, y: 3 }, '_', mode)
}

fn type_text(line: &mut LineBuffer, text: &str) {
    for c in text.chars() {
        line.handle_key(Key::Char(c));
    }
}

fn text(line: &LineBuffer) -> String {
    line.chars().iter().collect()
}

#[test]
fn new_editor_is_empty() {
    let line = editor(5, 10, TextMode::Insert);
    assert_eq!(text(&line), "");
    assert_eq!(line.cursor(), 0);
    assert_eq!(line.window_start(), 0);
    assert_eq!(line.mode(), TextMode::Insert);
    assert_eq!(line.get_position(), Position { x: 10, y: 3 });
}

#[test]
fn typing_seven_characters_scrolls_the_window() {
    let mut line = editor(5, 10, TextMode::Insert);
    type_text(&mut line, "ABCDEFG");
    assert_eq!(text(&line), "ABCDEFG");
    assert_eq!(line.cursor(), 7);
    assert_eq!(line.window_start(), 2);
    let shown = line.render();
    assert_eq!(shown.visible.iter().collect::<String>(), "CDEFG");
    assert!(shown.has_left_text);
    // The window ends where the text ends, so nothing is hidden on the right.
    assert!(!shown.has_right_text);
    assert_eq!(shown.pad_length, 0);
    assert_eq!(shown.cursor_column, 5);
}

#[test]
fn three_backspaces_after_seven_characters() {
    let mut line = editor(5, 10, TextMode::Insert);
    type_text(&mut line, "ABCDEFG");
    line.handle_key(Key::Backspace);
    line.handle_key(Key::Backspace);
    line.handle_key(Key::Backspace);
    assert_eq!(text(&line), "ABCD");
    assert_eq!(line.cursor(), 4);
    // The window moves left only when the cursor is before it.
    assert_eq!(line.window_start(), 2);
    let shown = line.render();
    assert_eq!(shown.visible.iter().collect::<String>(), "CD");
    assert!(shown.has_left_text);
    assert!(!shown.has_right_text);
    assert_eq!(shown.pad_length, 3);
    assert_eq!(shown.cursor_column, 2);
}

#[test]
fn home_brings_the_window_back() {
    let mut line = editor(5, 10, TextMode::Insert);
    type_text(&mut line, "ABCDEFG");
    line.handle_key(Key::Home);
    assert_eq!(line.cursor(), 0);
    assert_eq!(line.window_start(), 0);
    let shown = line.render();
    assert_eq!(shown.visible.iter().collect::<String>(), "ABCDE");
    assert!(!shown.has_left_text);
    assert!(shown.has_right_text);
    assert_eq!(shown.cursor_column, 0);
}

#[test]
fn overtype_replaces_in_place() {
    let mut line = editor(5, 10, TextMode::Insert);
    type_text(&mut line, "AB");
    line.handle_key(Key::Home);
    line.set_mode(TextMode::Overtype);
    line.handle_key(Key::Char('X'));
    assert_eq!(text(&line), "XB");
    assert_eq!(line.cursor(), 1);
}

#[test]
fn overtype_appends_at_the_end_below_the_cap() {
    let mut line = editor(5, 3, TextMode::Overtype);
    type_text(&mut line, "ABCD");
    assert_eq!(text(&line), "ABC");
    assert_eq!(line.cursor(), 3);
}

#[test]
fn overtype_at_the_cap_still_replaces() {
    let mut line = editor(5, 3, TextMode::Overtype);
    type_text(&mut line, "ABC");
    line.handle_key(Key::Left);
    line.handle_key(Key::Char('Z'));
    assert_eq!(text(&line), "ABZ");
    assert_eq!(line.cursor(), 3);
}

#[test]
fn insert_at_the_cap_is_rejected() {
    let mut line = editor(5, 3, TextMode::Insert);
    type_text(&mut line, "ABC");
    line.handle_key(Key::Left);
    line.handle_key(Key::Char('Z'));
    assert_eq!(text(&line), "ABC");
    assert_eq!(line.cursor(), 2);
}

#[test]
fn insert_with_a_cap_of_zero_takes_nothing() {
    let mut line = editor(5, 0, TextMode::Insert);
    type_text(&mut line, "A");
    assert_eq!(text(&line), "");
    assert_eq!(line.cursor(), 0);
}

#[test]
fn insert_splices_at_the_cursor() {
    let mut line = editor(5, 10, TextMode::Insert);
    type_text(&mut line, "AC");
    line.handle_key(Key::Left);
    line.handle_key(Key::Char('B'));
    assert_eq!(text(&line), "ABC");
    assert_eq!(line.cursor(), 2);
}

#[test]
fn cursor_stays_within_the_text() {
    let mut line = editor(5, 10, TextMode::Insert);
    line.handle_key(Key::Left);
    assert_eq!(line.cursor(), 0);
    line.handle_key(Key::Right);
    assert_eq!(line.cursor(), 0);
    type_text(&mut line, "AB");
    line.handle_key(Key::Right);
    line.handle_key(Key::Right);
    assert_eq!(line.cursor(), 2);
    line.handle_key(Key::Home);
    line.handle_key(Key::Left);
    assert_eq!(line.cursor(), 0);
    line.handle_key(Key::End);
    assert_eq!(line.cursor(), 2);
    assert_eq!(text(&line), "AB");
}

#[test]
fn backspace_and_delete_at_the_edges_do_nothing() {
    let mut line = editor(5, 10, TextMode::Insert);
    type_text(&mut line, "AB");
    line.handle_key(Key::Delete);
    assert_eq!(text(&line), "AB");
    line.handle_key(Key::Home);
    line.handle_key(Key::Backspace);
    assert_eq!(text(&line), "AB");
    assert_eq!(line.cursor(), 0);
    line.handle_key(Key::Delete);
    assert_eq!(text(&line), "B");
    assert_eq!(line.cursor(), 0);
}

#[test]
fn window_keeps_the_cursor_at_its_right_edge() {
    let mut line = editor(3, 10, TextMode::Insert);
    type_text(&mut line, "ABC");
    assert_eq!(line.window_start(), 0);
    assert_eq!(line.cursor(), 3);
    type_text(&mut line, "D");
    assert_eq!(line.window_start(), 1);
    line.handle_key(Key::Left);
    line.handle_key(Key::Left);
    line.handle_key(Key::Left);
    assert_eq!(line.cursor(), 1);
    assert_eq!(line.window_start(), 1);
    line.handle_key(Key::Left);
    assert_eq!(line.cursor(), 0);
    assert_eq!(line.window_start(), 0);
}

#[test]
fn set_pos_clamps_to_the_end() {
    let mut line = editor(5, 10, TextMode::Insert);
    type_text(&mut line, "ABC");
    line.set_pos(99);
    assert_eq!(line.cursor(), 3);
    line.set_pos(1);
    assert_eq!(line.cursor(), 1);
}

#[test]
fn typed_text_round_trips() {
    let mut line = editor(4, 12, TextMode::Insert);
    type_text(&mut line, "hello world");
    assert_eq!(text(&line), "hello world");
    assert_eq!(line.cursor(), 11);
}

#[test]
fn other_keys_change_nothing() {
    let mut line = editor(5, 10, TextMode::Insert);
    type_text(&mut line, "AB");
    line.handle_key(Key::Tab);
    line.handle_key(Key::Enter);
    line.handle_key(Key::Other);
    assert_eq!(text(&line), "AB");
    assert_eq!(line.cursor(), 2);
}

#[test]
fn toggle_insert_switches_the_mode() {
    let mut line = editor(5, 10, TextMode::Insert);
    assert_eq!(line.toggle_insert(), DrawOp::CursorStyle(TextMode::Overtype));
    assert_eq!(line.mode(), TextMode::Overtype);
    assert_eq!(line.toggle_insert(), DrawOp::CursorStyle(TextMode::Insert));
    assert_eq!(line.mode(), TextMode::Insert);
}

#[test]
fn key_codes_are_told_apart() {
    let none = KeyModifiers::NONE;
    let mut line = editor(5, 10, TextMode::Insert);
    line.handle_input(KeyCode::Char('A'), none);
    line.handle_input(KeyCode::Char('B'), KeyModifiers::SHIFT);
    line.handle_input(KeyCode::Char('C'), none);
    assert_eq!(text(&line), "ABC");
    line.handle_input(KeyCode::Left, none);
    assert_eq!(line.cursor(), 2);
    line.handle_input(KeyCode::Backspace, none);
    assert_eq!(text(&line), "AC");
    line.handle_input(KeyCode::Delete, none);
    assert_eq!(text(&line), "A");
    line.handle_input(KeyCode::Home, none);
    assert_eq!(line.cursor(), 0);
    line.handle_input(KeyCode::End, none);
    assert_eq!(line.cursor(), 1);
    line.handle_input(KeyCode::Left, none);
    line.handle_input(KeyCode::Right, none);
    assert_eq!(line.cursor(), 1);
    line.handle_input(KeyCode::F(1), none);
    line.handle_input(KeyCode::Up, none);
    assert_eq!(text(&line), "A");
    assert_eq!(line.cursor(), 1);
}

#[test]
fn frame_of_a_scrolled_editor() {
    let mut line = editor(3, 10, TextMode::Insert);
    type_text(&mut line, "ABCD");
    line.handle_key(Key::Left);
    let ops = line.draw();
    let plain = crossterm::style::Colors::new(
        crossterm::style::Color::White,
        crossterm::style::Color::Black,
    );
    assert_eq!(
        ops,
        vec![
            DrawOp::MoveTo(9, 3),
            DrawOp::SetColors(plain),
            DrawOp::Put('<'),
            DrawOp::SetColors(plain),
            DrawOp::Put('B'),
            DrawOp::Put('C'),
            DrawOp::Put('D'),
            DrawOp::SetColors(plain),
            DrawOp::Put(' '),
            DrawOp::MoveTo(12, 3),
            DrawOp::CursorStyle(TextMode::Insert),
            DrawOp::Flush,
        ]
    );
}

#[test]
fn frame_of_an_empty_editor_at_the_left_edge() {
    let line = LineBuffer::new(2, 4, Position { x: 0, y: 0 }, '.', TextMode::Overtype);
    let ops = line.draw();
    assert_eq!(ops[0], DrawOp::MoveTo(0, 0));
    assert_eq!(ops[2], DrawOp::Put(' '));
    assert_eq!(ops[4], DrawOp::Put('.'));
    assert_eq!(ops[5], DrawOp::Put('.'));
    assert_eq!(ops[7], DrawOp::Put(' '));
    assert_eq!(ops[8], DrawOp::MoveTo(0, 0));
    assert_eq!(ops[9], DrawOp::CursorStyle(TextMode::Overtype));
    assert_eq!(ops.len(), 11);
}
