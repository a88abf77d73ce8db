use crossterm::event::{KeyCode, KeyModifiers};
use crossterm::style::{Color, Colors};
use dialog::borders::{BorderStyle, Borders};
use dialog::colors::DialogColors;
use dialog::controls::button::Button;
use dialog::controls::field::Field;
use dialog::controls::Control;
use dialog::dialog::{ButtonCount, Dialog, DialogBuilder, DialogResult};
use dialog::keys::Key;
use dialog::line_buffer::TextMode;
use dialog::render::DrawOp;
use dialog::utils::{Position, Size};

fn contact_dialog() -> Dialog {
    DialogBuilder::new(" Add Contact ")
        .set_margin(Position { x: 4, y: 1 })
        .add_control(Control::Button(Button::new(
            "OK",
            Some(1),
            DialogResult::Okay,
            ButtonCount::One,
        )))
        .add_control(Control::Button(Button::new(
            "Cancel",
            Some(2),
            DialogResult::Cancel,
            ButtonCount::Two,
        )))
        .add_control(Control::TextField(Field::new("First Name", 15, 15, Some(0), 0)))
        .build()
}

fn screen() -> Size {
    Size { width: 80, height: 24 }
}

fn type_text(dialog: &mut Dialog, text: &str) {
    for c in text.chars() {
        dialog.handle_key(Key::Char(c));
    }
}

fn position_of(dialog: &Dialog, at: usize) -> Position {
    match &dialog.controls()[at] {
        Control::TextField(f) => f.get_position(),
        Control::Button(b) => b.get_position(),
    }
}

#[test]
fn contact_dialog_is_sized_and_centered() {
    let mut dialog = contact_dialog();
    assert_eq!(dialog.size(), None);
    assert_eq!(dialog.position(), None);
    dialog.show(screen());
    assert!(dialog.is_visible());
    // 4 + 15 + 10 + 8 for the field against (2 + 6) + (6 + 6) + 8 for the buttons.
    assert_eq!(dialog.size(), Some(Size { width: 37, height: 8 }));
    assert_eq!(dialog.position(), Some(Position { x: 22, y: 8 }));
}

#[test]
fn contact_dialog_places_its_controls() {
    let mut dialog = contact_dialog();
    dialog.show(screen());
    assert_eq!(dialog.controls().len(), 3);
    assert_eq!(dialog.controls()[0].get_name(), "First Name");
    assert_eq!(dialog.controls()[1].get_name(), "OK");
    assert_eq!(dialog.controls()[2].get_name(), "Cancel");
    assert_eq!(position_of(&dialog, 0), Position { x: 27, y: 10 });
    match &dialog.controls()[0] {
        Control::TextField(f) => {
            assert_eq!(f.input().get_position(), Position { x: 39, y: 10 })
        }
        Control::Button(_) => panic!("the field comes first"),
    }
    assert_eq!(position_of(&dialog, 1), Position { x: 27, y: 14 });
    assert_eq!(position_of(&dialog, 2), Position { x: 48, y: 14 });
}

#[test]
fn enter_returns_the_typed_value() {
    let mut dialog = contact_dialog();
    dialog.show(screen());
    type_text(&mut dialog, "Ada");
    let (answer, frame) = dialog.handle_key(Key::Enter);
    assert!(answer.should_quit);
    assert_eq!(answer.dialog_result, Some(DialogResult::Okay));
    assert_eq!(answer.values.len(), 1);
    assert_eq!(answer.values.get(&"First Name".to_string()), Some("Ada".to_string()));
    assert_eq!(answer.values.get(&"Last Name".to_string()), None);
    assert!(frame.is_empty());
}

#[test]
fn escape_returns_the_cancel_outcome() {
    let mut dialog = contact_dialog();
    dialog.show(screen());
    type_text(&mut dialog, "x");
    let (answer, _) = dialog.handle_key(Key::Esc);
    assert!(answer.should_quit);
    assert_eq!(answer.dialog_result, Some(DialogResult::Cancel));
    assert_eq!(answer.values.get(&"First Name".to_string()), Some("x".to_string()));
}

#[test]
fn submit_and_cancel_outcomes_can_be_set() {
    let mut dialog = DialogBuilder::new("t")
        .set_submit_result(DialogResult::Yes)
        .set_cancel_result(DialogResult::No)
        .build();
    assert_eq!(dialog.handle_key(Key::Enter).0.dialog_result, Some(DialogResult::Yes));
    assert_eq!(dialog.handle_key(Key::Esc).0.dialog_result, Some(DialogResult::No));
}

#[test]
fn a_typed_key_does_not_end_the_dialog() {
    let mut dialog = contact_dialog();
    dialog.show(screen());
    let (answer, frame) = dialog.handle_key(Key::Char(' '));
    assert!(!answer.should_quit);
    assert_eq!(answer.dialog_result, None);
    assert_eq!(answer.values.len(), 0);
    assert!(!frame.is_empty());
    assert_eq!(dialog.get_data().get(&"First Name".to_string()), Some(" ".to_string()));
}

#[test]
fn tab_goes_round_the_controls() {
    let mut dialog = contact_dialog();
    dialog.show(screen());
    assert_eq!(dialog.focused(), 0);
    dialog.handle_key(Key::Tab);
    assert_eq!(dialog.focused(), 1);
    dialog.handle_key(Key::Tab);
    assert_eq!(dialog.focused(), 2);
    dialog.handle_key(Key::Tab);
    assert_eq!(dialog.focused(), 0);
}

#[test]
fn back_tab_goes_round_the_other_way() {
    let mut dialog = contact_dialog();
    dialog.show(screen());
    dialog.handle_key(Key::BackTab);
    assert_eq!(dialog.focused(), 2);
    dialog.handle_key(Key::BackTab);
    assert_eq!(dialog.focused(), 1);
    dialog.handle_key(Key::BackTab);
    assert_eq!(dialog.focused(), 0);
}

#[test]
fn space_presses_the_focused_button() {
    let mut dialog = contact_dialog();
    dialog.show(screen());
    type_text(&mut dialog, "Bo");
    dialog.handle_key(Key::Tab);
    dialog.handle_key(Key::Tab);
    let (answer, _) = dialog.handle_key(Key::Char('x'));
    assert!(!answer.should_quit);
    let (answer, _) = dialog.handle_key(Key::Char(' '));
    assert!(answer.should_quit);
    assert_eq!(answer.dialog_result, Some(DialogResult::Cancel));
    assert_eq!(answer.values.get(&"First Name".to_string()), Some("Bo".to_string()));
}

#[test]
fn losing_the_focus_puts_the_cursor_at_the_start() {
    let mut dialog = contact_dialog();
    dialog.show(screen());
    type_text(&mut dialog, "abc");
    dialog.handle_key(Key::Tab);
    match &dialog.controls()[0] {
        Control::TextField(f) => assert_eq!(f.input().cursor(), 0),
        Control::Button(_) => panic!("the field comes first"),
    }
    assert_eq!(dialog.get_data().get(&"First Name".to_string()), Some("abc".to_string()));
}

#[test]
fn tab_frame_unmarks_the_field_and_marks_the_button() {
    let mut dialog = contact_dialog();
    dialog.show(screen());
    let (_, frame) = dialog.handle_key(Key::Tab);
    let plain = Colors::new(Color::White, Color::Black);
    let tail: Vec<DrawOp> = frame[frame.len() - 10..].to_vec();
    assert_eq!(
        tail,
        vec![
            DrawOp::HideCursor,
            DrawOp::Flush,
            DrawOp::SetColors(plain),
            DrawOp::MoveTo(25, 14),
            DrawOp::Put('<'),
            DrawOp::Put(' '),
            DrawOp::MoveTo(29, 14),
            DrawOp::Put(' '),
            DrawOp::Put('>'),
            DrawOp::Flush,
        ]
    );
}

#[test]
fn insert_key_switches_the_mode() {
    let mut dialog = contact_dialog();
    dialog.show(screen());
    type_text(&mut dialog, "AB");
    assert_eq!(dialog.mode(), TextMode::Insert);
    let (answer, frame) = dialog.handle_key(Key::Insert);
    assert!(!answer.should_quit);
    assert_eq!(dialog.mode(), TextMode::Overtype);
    assert!(frame.contains(&DrawOp::CursorStyle(TextMode::Overtype)));
    dialog.handle_key(Key::Home);
    dialog.handle_key(Key::Char('X'));
    assert_eq!(dialog.get_data().get(&"First Name".to_string()), Some("XB".to_string()));
    dialog.handle_key(Key::Insert);
    assert_eq!(dialog.mode(), TextMode::Insert);
    dialog.handle_key(Key::Char('Y'));
    assert_eq!(dialog.get_data().get(&"First Name".to_string()), Some("XYB".to_string()));
}

#[test]
fn key_codes_reach_the_dialog() {
    let none = KeyModifiers::NONE;
    let mut dialog = contact_dialog();
    dialog.show(screen());
    dialog.handle_input(KeyCode::Char('h'), none);
    dialog.handle_input(KeyCode::Char('i'), none);
    dialog.handle_input(KeyCode::Tab, none);
    assert_eq!(dialog.focused(), 1);
    dialog.handle_input(KeyCode::BackTab, none);
    assert_eq!(dialog.focused(), 0);
    dialog.handle_input(KeyCode::Insert, none);
    assert_eq!(dialog.mode(), TextMode::Overtype);
    dialog.handle_input(KeyCode::PageDown, none);
    let (answer, _) = dialog.handle_input(KeyCode::Esc, none);
    assert_eq!(answer.dialog_result, Some(DialogResult::Cancel));
    let (answer, _) = dialog.handle_input(KeyCode::Enter, KeyModifiers::CONTROL);
    assert!(answer.should_quit);
    assert_eq!(answer.dialog_result, Some(DialogResult::Okay));
    assert_eq!(answer.values.get(&"First Name".to_string()), Some("hi".to_string()));
}

#[test]
fn controls_are_sorted_by_tab_index_and_stay_in_order_within_one() {
    let dialog = DialogBuilder::new("t")
        .add_control(Control::TextField(Field::new("c", 1, 1, Some(2), 0)))
        .add_control(Control::TextField(Field::new("label", 1, 1, None, 1)))
        .add_control(Control::TextField(Field::new("a", 1, 1, Some(0), 2)))
        .add_control(Control::TextField(Field::new("c2", 1, 1, Some(2), 3)))
        .add_control(Control::TextField(Field::new("b", 1, 1, Some(1), 4)))
        .add_control(Control::TextField(Field::new("a2", 1, 1, Some(0), 5)))
        .build();
    let names: Vec<String> = dialog.controls().iter().map(|c| c.get_name()).collect();
    assert_eq!(names, vec!["label", "a", "a2", "b", "c", "c2"]);
}

#[test]
fn focus_starts_at_the_lowest_tab_index() {
    let mut dialog = DialogBuilder::new("t")
        .add_control(Control::TextField(Field::new("a", 3, 3, Some(4), 0)))
        .add_control(Control::TextField(Field::new("b", 3, 3, Some(5), 1)))
        .add_control(Control::TextField(Field::new("never", 3, 3, None, 2)))
        .build();
    dialog.show(screen());
    assert_eq!(dialog.focused(), 4);
    assert_eq!(dialog.get_focused_control(), Some(1));
    dialog.handle_key(Key::Tab);
    assert_eq!(dialog.focused(), 5);
    dialog.handle_key(Key::Tab);
    assert_eq!(dialog.focused(), 4);
    dialog.handle_key(Key::BackTab);
    assert_eq!(dialog.focused(), 5);
    dialog.handle_key(Key::BackTab);
    assert_eq!(dialog.focused(), 4);
}

#[test]
fn a_gap_in_the_tab_indexes_wraps_early() {
    let mut dialog = DialogBuilder::new("t")
        .add_control(Control::TextField(Field::new("a", 3, 3, Some(0), 0)))
        .add_control(Control::TextField(Field::new("b", 3, 3, Some(2), 1)))
        .build();
    dialog.show(screen());
    dialog.handle_key(Key::Tab);
    assert_eq!(dialog.focused(), 0);
    dialog.handle_key(Key::BackTab);
    assert_eq!(dialog.focused(), 2);
    dialog.handle_key(Key::BackTab);
    assert_eq!(dialog.focused(), 1);
    assert_eq!(dialog.get_focused_control(), None);
    let (answer, frame) = dialog.handle_key(Key::Char('x'));
    assert!(!answer.should_quit);
    assert!(frame.is_empty());
    assert_eq!(dialog.get_data().get(&"a".to_string()), Some("".to_string()));
}

#[test]
fn dialog_without_controls_has_the_least_size() {
    let mut dialog = DialogBuilder::new("empty").build();
    dialog.show(Size { width: 80, height: 24 });
    assert_eq!(dialog.size(), Some(Size { width: 2, height: 4 }));
    assert_eq!(dialog.position(), Some(Position { x: 39, y: 10 }));
    assert_eq!(dialog.focused(), 0);
    dialog.handle_key(Key::Tab);
    assert_eq!(dialog.focused(), 0);
    dialog.handle_key(Key::BackTab);
    assert_eq!(dialog.focused(), 0);
    assert_eq!(dialog.get_data().len(), 0);
    let mut wide = DialogBuilder::new("empty").set_margin(Position { x: 3, y: 2 }).build();
    wide.resize(Size { width: 80, height: 24 });
    assert_eq!(wide.size(), Some(Size { width: 8, height: 8 }));
}

#[test]
fn dialog_larger_than_the_screen_stands_at_the_edge() {
    let mut dialog = contact_dialog();
    dialog.show(Size { width: 20, height: 4 });
    assert_eq!(dialog.size(), Some(Size { width: 37, height: 8 }));
    assert_eq!(dialog.position(), Some(Position { x: 0, y: 0 }));
}

#[test]
fn hiding_clears_the_screen() {
    let mut dialog = contact_dialog();
    dialog.show(screen());
    let frame = dialog.hide_dialog();
    assert!(!dialog.is_visible());
    assert_eq!(frame, vec![DrawOp::ClearAll, DrawOp::Flush]);
}

#[test]
fn frame_of_a_small_dialog() {
    let blue = Colors::new(Color::DarkGrey, Color::DarkBlue);
    let grey = Colors::new(Color::White, Color::DarkGrey);
    let black = Colors::new(Color::Black, Color::DarkBlue);
    let colors = DialogColors::new(blue, black, grey, blue, black, black, black, black);
    let mut dialog = DialogBuilder::new("Hi")
        .set_borders(Borders::new(
            BorderStyle::Double,
            BorderStyle::Single,
            BorderStyle::Single,
            BorderStyle::Double,
            BorderStyle::Single,
        ))
        .set_colors(colors)
        .set_overlay(true)
        .build();
    let frame = dialog.show(Size { width: 10, height: 10 });
    assert_eq!(dialog.size(), Some(Size { width: 2, height: 4 }));
    assert_eq!(dialog.position(), Some(Position { x: 4, y: 3 }));
    assert_eq!(
        frame,
        vec![
            DrawOp::SetColors(grey),
            DrawOp::ClearAll,
            DrawOp::SetColors(blue),
            DrawOp::MoveTo(4, 3),
            DrawOp::Put('╒'),
            DrawOp::Put('╕'),
            DrawOp::MoveTo(4, 4),
            DrawOp::Put('│'),
            DrawOp::MoveTo(5, 4),
            DrawOp::Put('│'),
            DrawOp::MoveTo(4, 5),
            DrawOp::Put('│'),
            DrawOp::MoveTo(5, 5),
            DrawOp::Put('│'),
            DrawOp::MoveTo(4, 6),
            DrawOp::Put('╘'),
            DrawOp::Put('╛'),
            DrawOp::SetColors(black),
            DrawOp::MoveTo(5, 4),
            DrawOp::MoveTo(5, 5),
            DrawOp::MoveTo(8, 3),
            DrawOp::Put('H'),
            DrawOp::Put('i'),
            DrawOp::SetColors(blue),
            DrawOp::MoveTo(4, 4),
            DrawOp::Put('├'),
            DrawOp::Put('┤'),
            DrawOp::CursorStyle(TextMode::Insert),
            DrawOp::Flush,
        ]
    );
}

#[test]
fn show_draws_the_controls_in_the_theme() {
    let blue = Colors::new(Color::DarkGrey, Color::DarkBlue);
    let label = Colors::new(Color::Yellow, Color::DarkBlue);
    let input = Colors::new(Color::Black, Color::Grey);
    let mark = Colors::new(Color::Red, Color::Grey);
    let button = Colors::new(Color::Black, Color::Green);
    let focus = Colors::new(Color::White, Color::Green);
    let colors = DialogColors::new(blue, blue, blue, label, input, mark, button, focus);
    let mut dialog = DialogBuilder::new("t")
        .add_control(Control::TextField(Field::new("N", 2, 2, Some(0), 0)))
        .add_control(Control::Button(Button::new("Go", Some(1), DialogResult::Yes, ButtonCount::One)))
        .set_fill(false)
        .set_colors(colors)
        .build();
    let frame = dialog.show(Size { width: 40, height: 20 });
    assert!(frame.contains(&DrawOp::SetColors(label)));
    assert!(frame.contains(&DrawOp::SetColors(input)));
    assert!(frame.contains(&DrawOp::SetColors(mark)));
    assert!(frame.contains(&DrawOp::SetColors(button)));
    assert!(frame.contains(&DrawOp::SetColors(focus)));
    assert!(frame.contains(&DrawOp::ShowCursor));
    assert_eq!(frame[frame.len() - 2], DrawOp::CursorStyle(TextMode::Insert));
    assert_eq!(frame[frame.len() - 1], DrawOp::Flush);
}

#[test]
fn two_fields_with_one_name_give_one_value() {
    let mut dialog = DialogBuilder::new("t")
        .add_control(Control::TextField(Field::new("same", 3, 3, Some(0), 0)))
        .add_control(Control::TextField(Field::new("same", 3, 3, Some(1), 1)))
        .build();
    dialog.show(screen());
    type_text(&mut dialog, "one");
    dialog.handle_key(Key::Tab);
    type_text(&mut dialog, "two");
    let data = dialog.get_data();
    assert_eq!(data.len(), 1);
    assert_eq!(data.get(&"same".to_string()), Some("two".to_string()));
}

#[test]
fn builder_counts_its_buttons() {
    let builder = DialogBuilder::new("t");
    let third = Control::Button(Button::new("c", None, DialogResult::Abort, ButtonCount::Three));
    assert!(builder.has_room_for(&third));
    assert!(builder.buttons_fit());
    let builder = builder
        .add_control(Control::Button(Button::new("a", None, DialogResult::Yes, ButtonCount::One)))
        .add_control(third);
    // A third button among two has no place.
    assert!(!builder.buttons_fit());
    let builder = builder.add_control(Control::Button(Button::new(
        "b",
        None,
        DialogResult::No,
        ButtonCount::Two,
    )));
    assert!(builder.buttons_fit());
    let fourth = Control::Button(Button::new("d", None, DialogResult::Retry, ButtonCount::One));
    assert!(!builder.has_room_for(&fourth));
    assert!(builder.has_room_for(&Control::TextField(Field::new("f", 1, 1, None, 0))));
}

#[test]
fn default_dialog_is_empty() {
    let mut dialog = Dialog::default();
    assert_eq!(dialog.controls().len(), 0);
    assert!(!dialog.is_visible());
    assert_eq!(dialog.focused(), 0);
    assert_eq!(dialog.mode(), TextMode::Insert);
    assert_eq!(dialog.max_name_len(), 0);
    assert_eq!(dialog.handle_key(Key::Enter).0.dialog_result, Some(DialogResult::Okay));
    assert_eq!(dialog.handle_key(Key::Esc).0.dialog_result, Some(DialogResult::Cancel));
    dialog.calc_pos();
    assert_eq!(dialog.position(), None);
}

#[test]
fn a_lone_button_stands_in_the_middle_of_its_dialog() {
    let mut dialog = DialogBuilder::new("t")
        .set_margin(Position { x: 2, y: 0 })
        .add_control(Control::TextField(Field::new("Name", 20, 20, Some(0), 0)))
        .add_control(Control::Button(Button::new(
            "OK",
            Some(1),
            DialogResult::Okay,
            ButtonCount::One,
        )))
        .build();
    dialog.show(screen());
    // 4 + 20 + 4 + 4 cells wide, so the dialog starts at column 40 - 16.
    assert_eq!(dialog.size(), Some(Size { width: 32, height: 6 }));
    assert_eq!(dialog.position(), Some(Position { x: 24, y: 9 }));
    // 30 cells are free: 15 before the name and 15 after it.
    assert_eq!(position_of(&dialog, 1), Position { x: 39, y: 13 });
}

#[test]
fn a_full_draw_shapes_the_cursor_for_the_edit_mode() {
    let mut dialog = contact_dialog();
    let shown = dialog.show(screen());
    assert_eq!(shown[shown.len() - 2], DrawOp::CursorStyle(TextMode::Insert));
    dialog.handle_key(Key::Insert);
    let again = dialog.draw();
    assert_eq!(again[again.len() - 2], DrawOp::CursorStyle(TextMode::Overtype));
    assert_eq!(again[again.len() - 1], DrawOp::Flush);
    dialog.handle_key(Key::Insert);
    let back = dialog.draw();
    assert_eq!(back[back.len() - 2], DrawOp::CursorStyle(TextMode::Insert));
}
