use crossterm::style::{Color, Colors};
use dialog::borders::{BorderChars, BorderStyle, Borders};
use dialog::colors::{ButtonColors, DialogColors, FieldColors, LineBufferColors};
use dialog::controls::button::Button;
use dialog::controls::field::Field;
use dialog::controls::{Control, UIElement};
use dialog::dialog::{ButtonCount, DialogResult, DialogReturnValue};
use dialog::focus::{find_tab, highest_tab, lowest_tab};
use dialog::form_data::FormData;
use dialog::keys::Key;
use dialog::layout::{calc_longest_label, calc_min_size, calc_origin, place, place_all, DialogSpecs};
use dialog::line_buffer::TextMode;
use dialog::render::{put_run, put_str, put_text, DrawOp};
use dialog::tab_order::{ranks_before, sort_by_tab};
use dialog::utils::{offset, text_of, Position, Size};

fn button(name: &str, slot: ButtonCount) -> Control {
    Control::Button(Button::new(name, None, DialogResult::Okay, slot))
}

fn specs(count: Option<ButtonCount>) -> DialogSpecs {
    DialogSpecs {
        position: Position { x: 10, y: 5 },
        size: Size { width: 40, height: 12 },
        margin: Position { x: 3, y: 1 },
        max_name_len: 9,
        button_count: count,
    }
}

#[test]
fn double_border_glyphs() {
    let chars = BorderChars::new(Borders::default());
    assert_eq!((chars.tl, chars.tr, chars.bl, chars.br), ('╔', '╗', '╚', '╝'));
    assert_eq!((chars.top, chars.bottom, chars.split), ('═', '═', '═'));
    assert_eq!((chars.left, chars.right), ('║', '║'));
    assert_eq!((chars.left_intersect, chars.right_intersect), ('╠', '╣'));
    assert_eq!(BorderChars::default(), chars);
}

#[test]
fn single_border_glyphs() {
    let s = BorderStyle::Single;
    let chars = BorderChars::new(Borders::new(s, s, s, s, s));
    assert_eq!((chars.tl, chars.tr, chars.bl, chars.br), ('┌', '┐', '└', '┘'));
    assert_eq!((chars.top, chars.bottom, chars.split), ('─', '─', '─'));
    assert_eq!((chars.left, chars.right), ('│', '│'));
    assert_eq!((chars.left_intersect, chars.right_intersect), ('├', '┤'));
}

#[test]
fn mixed_border_glyphs() {
    let s = BorderStyle::Single;
    let d = BorderStyle::Double;
    // top single, left double, right single, bottom double, split double
    let chars = BorderChars::new(Borders::new(s, d, s, d, d));
    assert_eq!(chars.tl, '╓');
    assert_eq!(chars.tr, '┐');
    assert_eq!(chars.bl, '╚');
    assert_eq!(chars.br, '╛');
    assert_eq!(chars.left_intersect, '╠');
    assert_eq!(chars.right_intersect, '╡');
    // top double, left single, right double, bottom single, split single
    let chars = BorderChars::new(Borders::new(d, s, d, s, s));
    assert_eq!(chars.tl, '╒');
    assert_eq!(chars.tr, '╗');
    assert_eq!(chars.bl, '└');
    assert_eq!(chars.br, '╜');
    assert_eq!(chars.left_intersect, '├');
    assert_eq!(chars.right_intersect, '╢');
    assert_eq!((chars.top, chars.bottom, chars.split), ('═', '─', '─'));
    assert_eq!((chars.left, chars.right), ('│', '║'));
}

#[test]
fn default_styles() {
    assert_eq!(BorderStyle::default(), BorderStyle::Double);
    assert_eq!(TextMode::default(), TextMode::Insert);
    assert_eq!(DialogResult::default(), DialogResult::Okay);
    assert_eq!(ButtonCount::default(), ButtonCount::One);
    let none = DialogReturnValue::default();
    assert!(!none.should_quit);
    assert_eq!(none.dialog_result, None);
    assert_eq!(none.values.len(), 0);
}

#[test]
fn default_colors_are_white_on_black() {
    let plain = Colors::new(Color::White, Color::Black);
    let colors = DialogColors::default();
    assert_eq!(colors.border, plain);
    assert_eq!(colors.fill, plain);
    assert_eq!(colors.overlay, plain);
    assert_eq!(colors.fields.label, plain);
    assert_eq!(colors.fields.input.input, plain);
    assert_eq!(colors.fields.input.focus, plain);
    assert_eq!(colors.buttons.button, plain);
    assert_eq!(colors.buttons.focus, plain);
    assert_eq!(FieldColors::default().label, plain);
    assert_eq!(LineBufferColors::default().input, plain);
    assert_eq!(ButtonColors::default().focus, plain);
}

#[test]
fn colors_go_to_their_zones() {
    let c = |n: u8| Colors::new(Color::AnsiValue(n), Color::Black);
    let colors = DialogColors::new(c(1), c(2), c(3), c(4), c(5), c(6), c(7), c(8));
    assert_eq!(colors.border, c(1));
    assert_eq!(colors.fill, c(2));
    assert_eq!(colors.overlay, c(3));
    assert_eq!(colors.fields.label, c(4));
    assert_eq!(colors.fields.input.input, c(5));
    assert_eq!(colors.fields.input.focus, c(6));
    assert_eq!(colors.buttons.button, c(7));
    assert_eq!(colors.buttons.focus, c(8));
    let field = Field::new("n", 1, 1, None, 0);
    let copy = field.clone();
    assert_eq!(copy.draw_label(), field.draw_label());
}

#[test]
fn offset_saturates() {
    assert_eq!(offset(7, 3), 4);
    assert_eq!(offset(3, 7), 0);
    assert_eq!(offset(3, 3), 0);
    assert_eq!(offset(usize::MAX as u128 + 5, 5), usize::MAX);
    assert_eq!(offset(usize::MAX as u128 + 5, 4), usize::MAX);
    assert_eq!(offset(usize::MAX as u128 + 5, 6), usize::MAX - 1);
}

#[test]
fn text_of_keeps_every_character() {
    assert_eq!(text_of(&vec!['a', 'é', '漢', ' ']), "aé漢 ");
    assert_eq!(text_of(&vec![]), "");
}

#[test]
fn least_size_of_fields_and_buttons() {
    let margin = Position { x: 2, y: 3 };
    let controls = vec![
        Control::TextField(Field::new("Name", 10, 20, Some(0), 0)),
        Control::TextField(Field::new("Street", 30, 30, Some(1), 1)),
        button("OK", ButtonCount::One),
    ];
    // 6 + 30 + 4 + 4 for the widest field; 4 + 2 * 2 + 2 * 3 rows.
    assert_eq!(calc_min_size(&controls, margin), Size { width: 44, height: 14 });
    assert_eq!(calc_longest_label(&controls), 6);
    let buttons = vec![
        button("Abort", ButtonCount::One),
        button("Retry", ButtonCount::Two),
        button("Ignore", ButtonCount::Three),
        Control::TextField(Field::new("N", 1, 1, None, 0)),
    ];
    // (5 + 6) + (5 + 6) + (6 + 6) + 4 for the buttons against 1 + 1 + 4 + 4.
    assert_eq!(calc_min_size(&buttons, margin), Size { width: 38, height: 12 });
    assert_eq!(calc_min_size(&vec![], margin), Size { width: 6, height: 10 });
    assert_eq!(calc_longest_label(&vec![]), 0);
}

#[test]
fn label_width_counts_characters() {
    let controls = vec![Control::TextField(Field::new("Größe", 3, 3, None, 0))];
    assert_eq!(calc_longest_label(&controls), 5);
    assert_eq!(calc_min_size(&controls, Position { x: 0, y: 0 }), Size { width: 12, height: 6 });
}

#[test]
fn least_size_saturates() {
    let controls = vec![Control::TextField(Field::new("N", usize::MAX, 1, None, 0))];
    let size = calc_min_size(&controls, Position { x: usize::MAX, y: usize::MAX });
    assert_eq!(size, Size { width: usize::MAX, height: usize::MAX });
}

#[test]
fn origin_is_the_middle_of_the_screen() {
    let at = calc_origin(Size { width: 81, height: 25 }, Size { width: 37, height: 9 });
    assert_eq!(at, Position { x: 22, y: 8 });
    let edge = calc_origin(Size { width: 10, height: 30 }, Size { width: 40, height: 10 });
    assert_eq!(edge, Position { x: 0, y: 10 });
}

#[test]
fn fields_stand_one_below_the_other() {
    let first = Control::TextField(Field::new("Name", 5, 5, None, 0));
    let third = Control::TextField(Field::new("Telephone", 5, 5, None, 2));
    let s = specs(None);
    assert_eq!(place(&first, &s), Position { x: 19, y: 7 });
    assert_eq!(place(&third, &s), Position { x: 14, y: 11 });
}

#[test]
fn a_single_button_stands_in_the_middle() {
    let s = specs(Some(ButtonCount::One));
    // 38 of the 40 cells are free: 19 before the name and 19 after it.
    assert_eq!(place(&button("OK", ButtonCount::One), &s), Position { x: 29, y: 15 });
    assert_eq!(place(&button("OK", ButtonCount::Three), &s), Position { x: 29, y: 15 });
    // 35 cells are free: 17 before the name and 18 after it.
    assert_eq!(place(&button("Retry", ButtonCount::One), &s), Position { x: 27, y: 15 });
    let whole = "0123456789012345678901234567890123456789";
    assert_eq!(place(&button(whole, ButtonCount::One), &s), Position { x: 10, y: 15 });
}

#[test]
fn a_name_wider_than_the_dialog_starts_at_its_left_edge() {
    let s = DialogSpecs {
        position: Position { x: 7, y: 2 },
        size: Size { width: 4, height: 6 },
        margin: Position { x: 0, y: 0 },
        max_name_len: 0,
        button_count: Some(ButtonCount::One),
    };
    assert_eq!(place(&button("Cancel", ButtonCount::One), &s), Position { x: 7, y: 6 });
    assert_eq!(place(&button("Okay", ButtonCount::One), &s), Position { x: 7, y: 6 });
    assert_eq!(place(&button("No", ButtonCount::One), &s), Position { x: 8, y: 6 });
}

#[test]
fn two_buttons_stand_at_the_margins() {
    let s = specs(Some(ButtonCount::Two));
    assert_eq!(place(&button("OK", ButtonCount::One), &s), Position { x: 14, y: 15 });
    assert_eq!(place(&button("Cancel", ButtonCount::Two), &s), Position { x: 40, y: 15 });
}

#[test]
fn three_buttons_stand_left_middle_and_right() {
    let s = specs(Some(ButtonCount::Three));
    assert_eq!(place(&button("Yes", ButtonCount::One), &s), Position { x: 14, y: 15 });
    assert_eq!(place(&button("No", ButtonCount::Two), &s), Position { x: 29, y: 15 });
    assert_eq!(place(&button("Cancel", ButtonCount::Three), &s), Position { x: 40, y: 15 });
}

#[test]
fn a_button_stays_where_no_buttons_are_counted() {
    let mut control = button("OK", ButtonCount::One);
    control.set_position(Position { x: 3, y: 4 });
    assert_eq!(place(&control, &specs(None)), Position { x: 3, y: 4 });
}

#[test]
fn a_long_name_is_placed_at_the_left_edge() {
    let s = DialogSpecs {
        position: Position { x: 0, y: 0 },
        size: Size { width: 4, height: 1 },
        margin: Position { x: 5, y: 0 },
        max_name_len: 0,
        button_count: Some(ButtonCount::Two),
    };
    assert_eq!(place(&button("Cancel", ButtonCount::Two), &s), Position { x: 0, y: 0 });
    let field = Control::TextField(Field::new("Long", 1, 1, None, 0));
    assert_eq!(place(&field, &s), Position { x: 2, y: 1 });
}

#[test]
fn place_all_moves_every_control() {
    let mut controls = vec![
        Control::TextField(Field::new("Name", 5, 5, None, 1)),
        button("OK", ButtonCount::One),
    ];
    place_all(&mut controls, &specs(Some(ButtonCount::One)));
    match &controls[0] {
        Control::TextField(f) => {
            assert_eq!(f.get_position(), Position { x: 19, y: 9 });
            assert_eq!(f.input().get_position(), Position { x: 25, y: 9 });
        }
        Control::Button(_) => panic!("a field was put first"),
    }
    match &controls[1] {
        Control::Button(b) => assert_eq!(b.get_position(), Position { x: 29, y: 15 }),
        Control::TextField(_) => panic!("a button was put second"),
    }
}

#[test]
fn tab_indexes_are_found() {
    let controls = vec![
        Control::TextField(Field::new("a", 1, 1, Some(3), 0)),
        Control::TextField(Field::new("b", 1, 1, None, 1)),
        Control::TextField(Field::new("c", 1, 1, Some(1), 2)),
        Control::TextField(Field::new("d", 1, 1, Some(3), 3)),
    ];
    assert_eq!(find_tab(&controls, 3), Some(0));
    assert_eq!(find_tab(&controls, 1), Some(2));
    assert_eq!(find_tab(&controls, 0), None);
    assert_eq!(lowest_tab(&controls), Some(1));
    assert_eq!(highest_tab(&controls), Some(3));
    assert_eq!(lowest_tab(&vec![]), None);
    assert_eq!(highest_tab(&vec![button("x", ButtonCount::One)]), None);
}

#[test]
fn tab_ranks() {
    assert!(ranks_before(None, Some(0)));
    assert!(ranks_before(Some(1), Some(2)));
    assert!(!ranks_before(Some(2), Some(2)));
    assert!(!ranks_before(Some(0), None));
    assert!(!ranks_before(None, None));
    let sorted = sort_by_tab(vec![]);
    assert!(sorted.is_empty());
}

#[test]
fn form_data_keeps_the_last_value_of_a_name() {
    let data = FormData::new(vec![
        ("a".to_string(), "1".to_string()),
        ("b".to_string(), "2".to_string()),
        ("a".to_string(), "3".to_string()),
    ]);
    assert_eq!(data.len(), 2);
    assert_eq!(data.get(&"a".to_string()), Some("3".to_string()));
    assert_eq!(data.get(&"b".to_string()), Some("2".to_string()));
    assert_eq!(data.get(&"c".to_string()), None);
    assert_eq!(
        data.pairs(),
        &vec![("a".to_string(), "3".to_string()), ("b".to_string(), "2".to_string())]
    );
    let mut empty = FormData::default();
    assert_eq!(empty.len(), 0);
    empty.insert("k".to_string(), "v".to_string());
    assert_eq!(empty.get(&"k".to_string()), Some("v".to_string()));
}

#[test]
fn button_answers_only_to_space() {
    let mut b = Button::new("Retry", Some(2), DialogResult::Retry, ButtonCount::Two);
    let pressed = b.handle_input(Key::Char(' '), TextMode::Insert);
    assert!(pressed.should_quit);
    assert_eq!(pressed.dialog_result, Some(DialogResult::Retry));
    for key in [Key::Enter, Key::Char('x'), Key::Tab, Key::Other] {
        let other = b.handle_input(key, TextMode::Insert);
        assert!(!other.should_quit);
        assert_eq!(other.dialog_result, None);
    }
    assert_eq!(b.get_tab_index(), Some(2));
    assert_eq!(b.get_value(), None);
    assert_eq!(b.get_name(), "Retry");
    assert_eq!(b.get_index(), ButtonCount::Two);
    assert_eq!(b.name_len(), 5);
}

#[test]
fn button_frames() {
    let plain = Colors::new(Color::White, Color::Black);
    let mut b = Button::new("OK", None, DialogResult::Okay, ButtonCount::One);
    b.set_position(Position { x: 1, y: 7 });
    assert_eq!(
        b.draw(),
        vec![
            DrawOp::SetColors(plain),
            DrawOp::MoveTo(1, 7),
            DrawOp::Put('O'),
            DrawOp::Put('K'),
        ]
    );
    assert_eq!(
        b.show_focus_indicator(TextMode::Insert),
        vec![
            DrawOp::SetColors(plain),
            DrawOp::MoveTo(0, 7),
            DrawOp::Put('<'),
            DrawOp::Put(' '),
            DrawOp::MoveTo(3, 7),
            DrawOp::Put(' '),
            DrawOp::Put('>'),
        ]
    );
    let hidden = b.hide_focus_indicator();
    assert_eq!(hidden[2], DrawOp::Put(' '));
    assert_eq!(hidden[6], DrawOp::Put(' '));
}

#[test]
fn field_holds_what_is_typed() {
    let mut f = Field::new("City", 4, 6, Some(1), 2);
    assert_eq!(f.get_value(), Some(("City".to_string(), "".to_string())));
    for c in "Berlin!".chars() {
        let (answer, _) = f.handle_input(Key::Char(c), TextMode::Insert);
        assert!(!answer.should_quit);
    }
    assert_eq!(f.get_value(), Some(("City".to_string(), "Berlin".to_string())));
    assert_eq!(f.get_name(), "City");
    assert_eq!(f.get_tab_index(), Some(1));
    assert_eq!(f.get_field_index(), 2);
    assert_eq!(f.get_display_window(), 4);
    assert_eq!(f.name_len(), 4);
    f.handle_input(Key::Home, TextMode::Overtype);
    f.handle_input(Key::Char('P'), TextMode::Overtype);
    assert_eq!(f.get_value(), Some(("City".to_string(), "Perlin".to_string())));
    assert_eq!(f.input().mode(), TextMode::Overtype);
}

#[test]
fn field_frames() {
    let plain = Colors::new(Color::White, Color::Black);
    let mut f = Field::new("Id", 2, 2, None, 0);
    f.set_position(Position { x: 5, y: 1 });
    assert_eq!(f.get_position(), Position { x: 5, y: 1 });
    assert_eq!(f.input().get_position(), Position { x: 9, y: 1 });
    assert_eq!(
        f.draw_label(),
        vec![
            DrawOp::SetColors(plain),
            DrawOp::MoveTo(5, 1),
            DrawOp::Put('I'),
            DrawOp::Put('d'),
            DrawOp::Put(':'),
            DrawOp::Put(' '),
        ]
    );
    assert_eq!(
        f.show_focus_indicator(TextMode::Insert),
        vec![DrawOp::ShowCursor, DrawOp::MoveTo(9, 1)]
    );
    f.handle_input(Key::Char('7'), TextMode::Insert);
    let hidden = f.hide_focus_indicator();
    assert_eq!(f.input().cursor(), 0);
    assert_eq!(hidden[hidden.len() - 1], DrawOp::HideCursor);
    assert_eq!(hidden[hidden.len() - 4], DrawOp::MoveTo(9, 1));
    let whole = f.draw();
    assert_eq!(whole.len(), 6 + 11);
    assert_eq!(whole[6], DrawOp::MoveTo(8, 1));
    assert_eq!(whole[10], DrawOp::Put('7'));
    assert_eq!(whole[11], DrawOp::Put('_'));
}

#[test]
fn strings_and_runs_become_instructions() {
    let mut ops = vec![DrawOp::Flush];
    put_str(&mut ops, "añ");
    put_run(&mut ops, '-', 2);
    put_text(&mut ops, &vec!['w', 'x', 'y', 'z'], 1, 3);
    put_run(&mut ops, '!', 0);
    assert_eq!(
        ops,
        vec![
            DrawOp::Flush,
            DrawOp::Put('a'),
            DrawOp::Put('ñ'),
            DrawOp::Put('-'),
            DrawOp::Put('-'),
            DrawOp::Put('x'),
            DrawOp::Put('y'),
        ]
    );
}

#[test]
fn pairs_become_positions_and_sizes() {
    let at: Position = (4, 1).into();
    assert_eq!(at, Position { x: 4, y: 1 });
    let size: Size = (80usize, 24usize).into();
    assert_eq!(size, Size { width: 80, height: 24 });
    let grid: Size = (132u16, 43u16).into();
    assert_eq!(grid, Size { width: 132, height: 43 });
}

#[test]
fn controls_answer_alike_through_the_trait() {
    let mut as_field = Field::new("Id", 2, 2, Some(3), 0);
    let mut as_control = Control::TextField(as_field.clone());
    UIElement::set_position(&mut as_field, Position { x: 5, y: 1 });
    UIElement::set_position(&mut as_control, Position { x: 5, y: 1 });
    let (one, frame_one) = UIElement::handle_input(&mut as_field, Key::Char('7'), TextMode::Insert);
    let (two, frame_two) =
        UIElement::handle_input(&mut as_control, Key::Char('7'), TextMode::Insert);
    assert!(!one.should_quit && !two.should_quit);
    assert_eq!(frame_one, frame_two);
    assert_eq!(UIElement::draw(&as_field), UIElement::draw(&as_control));
    assert_eq!(
        UIElement::get_value(&as_control),
        Some(("Id".to_string(), "7".to_string()))
    );
    assert_eq!(UIElement::get_value(&as_field), UIElement::get_value(&as_control));
    assert_eq!(UIElement::get_tab_index(&as_control), Some(3));
    assert_eq!(UIElement::get_name(&as_field), "Id");
    assert_eq!(
        UIElement::show_focus_indicator(&as_field, TextMode::Insert),
        UIElement::show_focus_indicator(&as_control, TextMode::Insert)
    );
    assert_eq!(
        UIElement::hide_focus_indicator(&mut as_field),
        UIElement::hide_focus_indicator(&mut as_control)
    );
}

#[test]
fn a_button_ends_the_dialog_through_the_trait() {
    let mut b = Button::new("No", Some(1), DialogResult::No, ButtonCount::Two);
    let (answer, frame) = UIElement::handle_input(&mut b, Key::Char(' '), TextMode::Insert);
    assert!(answer.should_quit);
    assert_eq!(answer.dialog_result, Some(DialogResult::No));
    assert!(frame.is_empty());
    assert_eq!(UIElement::get_value(&b), None);
    assert_eq!(UIElement::get_name(&b), "No");
    UIElement::set_position(&mut b, Position { x: 9, y: 2 });
    assert_eq!(b.get_position(), Position { x: 9, y: 2 });
    assert_eq!(UIElement::draw(&b).len(), 4);
}
