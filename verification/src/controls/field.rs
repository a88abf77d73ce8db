use vstd::prelude::*;
use crate::colors::FieldColors;
use crate::dialog::DialogReturnValue;
use crate::keys::Key;
use crate::line_buffer::{Editor, LineBuffer, TextMode};
use crate::render::{put_all, put_str, puts, DrawOp};
use crate::utils::{offset, saturate, text_of, Position};

verus! {

/// What a text field is, as mathematics: a label and a line editor.
pub struct FieldModel {
    pub name: Seq<char>,
    pub display_len: usize,
    pub tab_index: Option<usize>,
    /// The row of the field among the dialog's fields, counted from zero.
    pub index: usize,
    /// Where the label starts.
    pub position: Position,
    pub editor: Editor,
    pub label_colors: crossterm::style::Colors,
}

impl FieldModel {
    /// The frame that writes the label, a colon and a blank.
    pub open spec fn label_frame(self) -> Seq<DrawOp> {
        seq![
            DrawOp::SetColors(self.label_colors),
            DrawOp::MoveTo(self.position.x, self.position.y),
        ] + puts(self.name) + seq![DrawOp::Put(':'), DrawOp::Put(' ')]
    }

    /// The frame that writes the label and then the editor.
    pub open spec fn frame(self) -> Seq<DrawOp> {
        self.label_frame() + self.editor.frame()
    }

    /// The field after a key that came while `mode` was the dialog's edit
    /// mode: the editor takes over the mode and then the key.
    pub open spec fn after(self, key: Key, mode: TextMode) -> FieldModel {
        FieldModel { editor: (Editor { mode, ..self.editor }).after(key), ..self }
    }

    /// The field with `mode` as the edit mode of its editor.
    pub open spec fn with_mode(self, mode: TextMode) -> FieldModel {
        FieldModel { editor: Editor { mode, ..self.editor }, ..self }
    }

    /// The field in the colours of `colors`.
    pub open spec fn themed(self, colors: FieldColors) -> FieldModel {
        FieldModel {
            label_colors: colors.label,
            editor: Editor { colors: colors.input, ..self.editor },
            ..self
        }
    }

    /// The frame that shows the cursor at the start of the editor's window.
    pub open spec fn focus_frame(self) -> Seq<DrawOp> {
        seq![
            DrawOp::ShowCursor,
            DrawOp::MoveTo(self.editor.position.x, self.editor.position.y),
        ]
    }

    /// The field after it lost the focus: the cursor is back at the start.
    pub open spec fn unfocused(self) -> FieldModel {
        FieldModel { editor: self.editor.moved_to(0), ..self }
    }

    /// The frame that shows the field after it lost the focus.
    pub open spec fn unfocus_frame(self) -> Seq<DrawOp> {
        self.unfocused().editor.frame() + seq![DrawOp::HideCursor]
    }

    /// The field with its label at `position`: the editor's window starts
    /// two cells after the label's end.
    pub open spec fn placed(self, position: Position) -> FieldModel {
        FieldModel {
            position,
            editor: Editor {
                position: Position {
                    x: saturate(position.x + self.name.len() + 2),
                    y: position.y,
                },
                ..self.editor
            },
            ..self
        }
    }
}

/// A labelled text field.
#[derive(Debug, Clone)]
pub struct Field {
    name: String,
    display_len: usize,
    tab_index: Option<usize>,
    index: usize,
    value: String,
    position: Position,
    line_buffer: LineBuffer,
    label_colors: crossterm::style::Colors,
}

impl View for Field {
    type V = FieldModel;

    closed spec fn view(&self) -> FieldModel {
        FieldModel {
            name: self.name@,
            display_len: self.display_len,
            tab_index: self.tab_index,
            index: self.index,
            position: self.position,
            editor: self.line_buffer@,
            label_colors: self.label_colors,
        }
    }
}

impl Field {
    /// The editor is in order and the stored value is the editor's text.
    pub closed spec fn wf(&self) -> bool {
        &&& self.line_buffer@.wf()
        &&& self.value@ == self.line_buffer@.buffer
    }

    /// In a field that is in order the editor is in order.
    pub proof fn lemma_wf(&self)
        requires
            self.wf(),
        ensures
            self@.editor.wf(),
    {
    }

    /// An empty field that shows `display_len` characters and takes up to
    /// `input_len`.
    pub fn new(
        name: &str,
        display_len: usize,
        input_len: usize,
        tab_index: Option<usize>,
        index: usize,
    ) -> (r: Self)
        ensures
            r.wf(),
            r@.name == name@,
            r@.display_len == display_len,
            r@.tab_index == tab_index,
            r@.index == index,
            r@.position == (Position { x: 0, y: 0 }),
            r@.editor.buffer == Seq::<char>::empty(),
            r@.editor.cursor == 0,
            r@.editor.window_start == 0,
            r@.editor.window_size == display_len,
            r@.editor.max_length == input_len,
            r@.editor.mode == TextMode::Insert,
            r@.editor.position == (Position { x: 0, y: 0 }),
            r@.editor.pad_char == '_',
    {
        let colors = FieldColors::default();
        Self {
            name: name.to_owned(),
            display_len,
            tab_index,
            index,
            value: String::new(),
            line_buffer: LineBuffer::new(
                display_len,
                input_len,
                Position { x: 0, y: 0 },
                '_',
                TextMode::Insert,
            ),
            position: Position { x: 0, y: 0 },
            label_colors: colors.label,
        }
    }

    pub fn set_colors(&mut self, colors: FieldColors)
        requires
            old(self).wf(),
        ensures
            final(self).wf(),
            final(self)@ == old(self)@.themed(colors),
    {
        self.label_colors = colors.label;
        self.line_buffer.set_colors(colors.input);
    }

    /// Sets the edit mode of the editor.
    pub fn set_mode(&mut self, mode: TextMode)
        requires
            old(self).wf(),
        ensures
            final(self).wf(),
            final(self)@ == old(self)@.with_mode(mode),
    {
        self.line_buffer.set_mode(mode);
    }

    /// The frame that writes the label.
    pub fn draw_label(&self) -> (ops: Vec<DrawOp>)
        ensures
            ops@ == self@.label_frame(),
    {
        let mut ops: Vec<DrawOp> = Vec::new();
        ops.push(DrawOp::SetColors(self.label_colors));
        ops.push(DrawOp::MoveTo(self.position.x, self.position.y));
        put_str(&mut ops, self.name.as_str());
        ops.push(DrawOp::Put(':'));
        ops.push(DrawOp::Put(' '));
        assert(ops@ =~= self@.label_frame());
        ops
    }

    pub fn get_field_index(&self) -> (r: usize)
        ensures
            r == self@.index,
    {
        self.index
    }

    pub fn get_display_window(&self) -> (r: usize)
        ensures
            r == self@.display_len,
    {
        self.display_len
    }

    /// The width of the label, in cells.
    pub fn name_len(&self) -> (r: usize)
        ensures
            r == self@.name.len(),
    {
        self.name.as_str().unicode_len()
    }

    pub fn get_position(&self) -> (r: Position)
        ensures
            r == self@.position,
    {
        self.position
    }

    /// The line editor of the field.
    pub fn input(&self) -> (r: &LineBuffer)
        ensures
            r@ == self@.editor,
    {
        &self.line_buffer
    }

    /// The frame that writes the label and the editor.
    pub fn draw(&self) -> (ops: Vec<DrawOp>)
        requires
            self.wf(),
        ensures
            ops@ == self@.frame(),
    {
        let mut ops = self.draw_label();
        let editor = self.line_buffer.draw();
        put_all(&mut ops, &editor);
        ops
    }

    /// Hands the key to the editor, which first takes over `mode`, and
    /// returns the frame that shows the editor afterwards. A field never ends
    /// the dialog.
    pub fn handle_input(&mut self, key: Key, mode: TextMode) -> (r: (
        DialogReturnValue,
        Vec<DrawOp>,
    ))
        requires
            old(self).wf(),
        ensures
            final(self).wf(),
            final(self)@ == old(self)@.after(key, mode),
            r.0.is_none(),
            r.1@ == final(self)@.editor.frame(),
    {
        self.line_buffer.set_mode(mode);
        let ops = self.line_buffer.handle_key(key);
        self.value = text_of(self.line_buffer.chars());
        (DialogReturnValue::default(), ops)
    }

    /// The frame that shows the cursor in the field.
    pub fn show_focus_indicator(&self, _mode: TextMode) -> (ops: Vec<DrawOp>)
        ensures
            ops@ == self@.focus_frame(),
    {
        let at = self.line_buffer.get_position();
        let mut ops: Vec<DrawOp> = Vec::new();
        ops.push(DrawOp::ShowCursor);
        ops.push(DrawOp::MoveTo(at.x, at.y));
        assert(ops@ =~= self@.focus_frame());
        ops
    }

    /// Puts the cursor back to the start of the text and hides it.
    pub fn hide_focus_indicator(&mut self) -> (ops: Vec<DrawOp>)
        requires
            old(self).wf(),
        ensures
            final(self).wf(),
            final(self)@ == old(self)@.unfocused(),
            ops@ == old(self)@.unfocus_frame(),
    {
        self.line_buffer.set_pos(0);
        let mut ops = self.line_buffer.draw();
        ops.push(DrawOp::HideCursor);
        assert(ops@ =~= old(self)@.unfocus_frame());
        ops
    }

    /// Puts the label at `position` and the editor behind it.
    pub fn set_position(&mut self, position: Position)
        requires
            old(self).wf(),
        ensures
            final(self).wf(),
            final(self)@ == old(self)@.placed(position),
    {
        self.position = position;
        let width: usize = self.name.as_str().unicode_len();
        self.line_buffer.set_position(
            Position { x: offset(position.x as u128 + width as u128 + 2, 0), y: position.y },
        );
    }

    pub fn get_tab_index(&self) -> (r: Option<usize>)
        ensures
            r == self@.tab_index,
    {
        self.tab_index
    }

    /// The field's name and what its editor holds.
    pub fn get_value(&self) -> (r: Option<(String, String)>)
        requires
            self.wf(),
        ensures
            r.is_some(),
            r.unwrap().0@ == self@.name,
            r.unwrap().1@ == self@.editor.buffer,
    {
        Some((self.name.clone(), self.value.clone()))
    }

    pub fn get_name(&self) -> (r: String)
        ensures
            r@ == self@.name,
    {
        self.name.clone()
    }
}

} // verus!
