use vstd::prelude::*;
use crate::colors::ButtonColors;
use crate::dialog::{ButtonCount, DialogResult, DialogReturnValue};
use crate::form_data::FormData;
use crate::keys::Key;
use crate::line_buffer::TextMode;
use crate::render::{put_str, puts, DrawOp};
use crate::utils::{offset, saturate, Position};

verus! {

/// What a button is, as mathematics.
pub struct ButtonModel {
    pub name: Seq<char>,
    pub tab_index: Option<usize>,
    pub result: DialogResult,
    /// Which of the dialog's buttons this is, counted from the left.
    pub index: ButtonCount,
    pub position: Position,
    pub colors: ButtonColors,
}

impl ButtonModel {
    /// The frame that writes the button's name at its place.
    pub open spec fn frame(self) -> Seq<DrawOp> {
        seq![
            DrawOp::SetColors(self.colors.button),
            DrawOp::MoveTo(self.position.x, self.position.y),
        ] + puts(self.name)
    }

    /// The frame that writes `left` and a blank two cells before the name,
    /// and a blank and `right` directly after it.
    pub open spec fn brackets(self, left: char, right: char) -> Seq<DrawOp> {
        seq![
            DrawOp::SetColors(self.colors.focus),
            DrawOp::MoveTo(saturate(self.position.x - 2), self.position.y),
            DrawOp::Put(left),
            DrawOp::Put(' '),
            DrawOp::MoveTo(saturate(self.position.x + self.name.len()), self.position.y),
            DrawOp::Put(' '),
            DrawOp::Put(right),
        ]
    }

    /// The key that presses a button.
    pub open spec fn activates(key: Key) -> bool {
        key == Key::Char(' ')
    }
}

/// A button that ends the dialog with its own outcome.
#[derive(Debug, Clone)]
pub struct Button {
    name: String,
    tab_index: Option<usize>,
    result: DialogResult,
    index: ButtonCount,
    position: Position,
    colors: ButtonColors,
}

impl View for Button {
    type V = ButtonModel;

    closed spec fn view(&self) -> ButtonModel {
        ButtonModel {
            name: self.name@,
            tab_index: self.tab_index,
            result: self.result,
            index: self.index,
            position: self.position,
            colors: self.colors,
        }
    }
}

impl Button {
    pub fn new(name: &str, tab_index: Option<usize>, result: DialogResult, index: ButtonCount) -> (r:
        Self)
        ensures
            r@.name == name@,
            r@.tab_index == tab_index,
            r@.result == result,
            r@.index == index,
            r@.position == (Position { x: 0, y: 0 }),
            r@.colors.button == r@.colors.focus,
    {
        Self {
            name: name.to_owned(),
            tab_index,
            result,
            index,
            position: Position { x: 0, y: 0 },
            colors: ButtonColors::default(),
        }
    }

    pub fn set_colors(&mut self, colors: ButtonColors)
        ensures
            final(self)@ == (ButtonModel { colors, ..old(self)@ }),
    {
        self.colors = colors;
    }

    /// The frame that writes the button.
    pub fn draw(&self) -> (ops: Vec<DrawOp>)
        ensures
            ops@ == self@.frame(),
    {
        let mut ops: Vec<DrawOp> = Vec::new();
        ops.push(DrawOp::SetColors(self.colors.button));
        ops.push(DrawOp::MoveTo(self.position.x, self.position.y));
        put_str(&mut ops, self.name.as_str());
        assert(ops@ =~= self@.frame());
        ops
    }

    /// The space bar presses the button: the dialog ends with the button's
    /// outcome. Any other key does nothing.
    pub fn handle_input(&mut self, key: Key, _mode: TextMode) -> (r: DialogReturnValue)
        ensures
            final(self)@ == old(self)@,
            ButtonModel::activates(key) ==> r.should_quit && r.dialog_result == Some(
                old(self)@.result,
            ),
            !ButtonModel::activates(key) ==> !r.should_quit && r.dialog_result.is_none(),
            r.values.wf(),
            r.values@ == Map::<Seq<char>, Seq<char>>::empty(),
    {
        match key {
            Key::Char(' ') => DialogReturnValue {
                should_quit: true,
                dialog_result: Some(self.result),
                values: FormData::default(),
            },
            _ => DialogReturnValue::default(),
        }
    }

    /// The frame that puts `< ` and ` >` around the name.
    pub fn show_focus_indicator(&self, _mode: TextMode) -> (ops: Vec<DrawOp>)
        ensures
            ops@ == self@.brackets('<', '>'),
    {
        self.draw_brackets('<', '>')
    }

    /// The frame that blanks the cells around the name.
    pub fn hide_focus_indicator(&mut self) -> (ops: Vec<DrawOp>)
        ensures
            final(self)@ == old(self)@,
            ops@ == old(self)@.brackets(' ', ' '),
    {
        self.draw_brackets(' ', ' ')
    }

    fn draw_brackets(&self, left: char, right: char) -> (ops: Vec<DrawOp>)
        ensures
            ops@ == self@.brackets(left, right),
    {
        let width: usize = self.name.as_str().unicode_len();
        let mut ops: Vec<DrawOp> = Vec::new();
        ops.push(DrawOp::SetColors(self.colors.focus));
        ops.push(DrawOp::MoveTo(offset(self.position.x as u128, 2), self.position.y));
        ops.push(DrawOp::Put(left));
        ops.push(DrawOp::Put(' '));
        ops.push(
            DrawOp::MoveTo(offset(self.position.x as u128 + width as u128, 0), self.position.y),
        );
        ops.push(DrawOp::Put(' '));
        ops.push(DrawOp::Put(right));
        assert(ops@ =~= self@.brackets(left, right));
        ops
    }

    pub fn set_position(&mut self, position: Position)
        ensures
            final(self)@ == (ButtonModel { position, ..old(self)@ }),
    {
        self.position = position;
    }

    pub fn get_tab_index(&self) -> (r: Option<usize>)
        ensures
            r == self@.tab_index,
    {
        self.tab_index
    }

    /// A button holds no value.
    pub fn get_value(&self) -> (r: Option<(String, String)>)
        ensures
            r.is_none(),
    {
        None
    }

    pub fn get_name(&self) -> (r: String)
        ensures
            r@ == self@.name,
    {
        self.name.clone()
    }

    /// The width of the name, in cells.
    pub fn name_len(&self) -> (r: usize)
        ensures
            r == self@.name.len(),
    {
        self.name.as_str().unicode_len()
    }

    pub fn get_index(&self) -> (r: ButtonCount)
        ensures
            r == self@.index,
    {
        self.index
    }

    pub fn get_position(&self) -> (r: Position)
        ensures
            r == self@.position,
    {
        self.position
    }
}

} // verus!
