use vstd::prelude::*;
use crate::colors::LineBufferColors;
use crate::keys::{decode, Key};
use crate::render::{put_run, put_text, puts, run, DrawOp};
use crate::utils::{offset, saturate, Position};

verus! {

/// How a typed character enters the buffer.
#[derive(Debug, Clone, Copy, PartialEq, Eq, Structural)]
pub enum TextMode {
    /// The character replaces the one under the cursor.
    Overtype,
    /// The character is spliced in at the cursor.
    Insert,
}

impl Default for TextMode {
    fn default() -> (r: Self)
        ensures
            r == TextMode::Insert,
    {
        TextMode::Insert
    }
}

/// What a line editor is, as mathematics: the text, the cursor, the part of
/// the text that the field shows, and where and how it is shown.
pub struct Editor {
    pub buffer: Seq<char>,
    pub cursor: int,
    pub window_start: int,
    pub window_size: int,
    pub max_length: int,
    pub mode: TextMode,
    pub position: Position,
    pub pad_char: char,
    pub colors: LineBufferColors,
}

impl Editor {
    /// The buffer keeps to its cap, the cursor lies in the buffer, and the
    /// window starts at or before the cursor and reaches it.
    pub open spec fn wf(self) -> bool {
        &&& self.buffer.len() <= self.max_length
        &&& 0 <= self.window_start <= self.cursor <= self.buffer.len()
        &&& self.cursor <= self.window_start + self.window_size
        &&& 0 <= self.window_size
    }

    /// The window follows the cursor: it moves left as soon as the cursor is
    /// before it, and right only once the cursor is past its right edge.
    pub open spec fn scrolled(self) -> Editor {
        if self.cursor < self.window_start {
            Editor { window_start: self.cursor, ..self }
        } else if self.cursor > self.window_start + self.window_size {
            Editor { window_start: self.cursor - self.window_size, ..self }
        } else {
            self
        }
    }

    /// The cursor goes to `pos`, or to the end of the text if `pos` lies
    /// beyond it.
    pub open spec fn moved_to(self, pos: int) -> Editor {
        Editor {
            cursor: if pos <= self.buffer.len() { pos } else { self.buffer.len() as int },
            ..self
        }.scrolled()
    }

    /// Whether a typed character is taken: always when it replaces one, and
    /// otherwise while the buffer is below its cap.
    pub open spec fn accepts(self) -> bool {
        match self.mode {
            TextMode::Insert => self.buffer.len() < self.max_length,
            TextMode::Overtype => self.cursor < self.buffer.len() || self.buffer.len()
                < self.max_length,
        }
    }

    /// The text after `c` was typed and taken.
    pub open spec fn text_with(self, c: char) -> Seq<char> {
        if self.mode == TextMode::Overtype && self.cursor < self.buffer.len() {
            self.buffer.update(self.cursor, c)
        } else {
            self.buffer.insert(self.cursor, c)
        }
    }

    pub open spec fn typed(self, c: char) -> Editor {
        if self.accepts() {
            Editor { buffer: self.text_with(c), ..self }.moved_to(self.cursor + 1)
        } else {
            self
        }
    }

    pub open spec fn backspaced(self) -> Editor {
        if self.cursor > 0 {
            Editor { buffer: self.buffer.remove(self.cursor - 1), ..self }.moved_to(
                self.cursor - 1,
            )
        } else {
            self
        }
    }

    pub open spec fn deleted(self) -> Editor {
        if self.cursor < self.buffer.len() {
            Editor { buffer: self.buffer.remove(self.cursor), ..self }.scrolled()
        } else {
            self
        }
    }

    pub open spec fn moved_left(self) -> Editor {
        if self.cursor > 0 {
            self.moved_to(self.cursor - 1)
        } else {
            self
        }
    }

    pub open spec fn moved_right(self) -> Editor {
        if self.cursor < self.buffer.len() {
            self.moved_to(self.cursor + 1)
        } else {
            self
        }
    }

    /// The editor after one key.
    pub open spec fn after(self, key: Key) -> Editor {
        match key {
            Key::Left => self.moved_left(),
            Key::Right => self.moved_right(),
            Key::Home => self.moved_to(0),
            Key::End => self.moved_to(self.buffer.len() as int),
            Key::Backspace => self.backspaced(),
            Key::Delete => self.deleted(),
            Key::Char(c) => self.typed(c),
            _ => self,
        }
    }

    /// The editor after the keys of `keys`, first to last.
    pub open spec fn after_all(self, keys: Seq<Key>) -> Editor
        decreases keys.len(),
    {
        if keys.len() == 0 {
            self
        } else {
            self.after_all(keys.drop_last()).after(keys.last())
        }
    }

    pub open spec fn toggled(self) -> Editor {
        Editor {
            mode: match self.mode {
                TextMode::Overtype => TextMode::Insert,
                TextMode::Insert => TextMode::Overtype,
            },
            ..self
        }
    }

    /// Where the shown part of the text ends.
    pub open spec fn window_end(self) -> int {
        if self.window_start + self.window_size <= self.buffer.len() {
            self.window_start + self.window_size
        } else {
            self.buffer.len() as int
        }
    }

    /// The part of the text that the field shows.
    pub open spec fn visible(self) -> Seq<char> {
        self.buffer.subrange(self.window_start, self.window_end())
    }

    /// Text lies hidden to the left of the window.
    pub open spec fn overflows_left(self) -> bool {
        self.window_start > 0
    }

    /// Text lies hidden to the right of the window.
    pub open spec fn overflows_right(self) -> bool {
        self.window_end() < self.buffer.len()
    }

    /// The cells of the window that no character fills.
    pub open spec fn padding(self) -> nat {
        (self.window_size - self.visible().len()) as nat
    }

    /// The cursor's column, counted from the first cell of the window.
    pub open spec fn cursor_column(self) -> int {
        self.cursor - self.window_start
    }

    /// The frame that shows the editor: the cell before the window holds the
    /// left indicator, then come the shown text, the padding and the right
    /// indicator, and the cursor is put where the next character would go.
    pub open spec fn frame(self) -> Seq<DrawOp> {
        seq![
            DrawOp::MoveTo(saturate(self.position.x - 1), self.position.y),
            DrawOp::SetColors(self.colors.focus),
            DrawOp::Put(if self.overflows_left() { '<' } else { ' ' }),
            DrawOp::SetColors(self.colors.input),
        ] + puts(self.visible()) + run(self.pad_char, self.padding()) + seq![
            DrawOp::SetColors(self.colors.focus),
            DrawOp::Put(if self.overflows_right() { '>' } else { ' ' }),
            DrawOp::MoveTo(saturate(self.position.x + self.cursor_column()), self.position.y),
            DrawOp::CursorStyle(self.mode),
            DrawOp::Flush,
        ]
    }
}

impl Editor {
    /// Typing the characters of `text`, first to last.
    pub open spec fn typed_all(self, text: Seq<char>) -> Editor
        decreases text.len(),
    {
        if text.len() == 0 {
            self
        } else {
            self.typed_all(text.drop_last()).typed(text.last())
        }
    }
}

/// A key that only moves the cursor.
pub open spec fn is_move(key: Key) -> bool {
    key == Key::Left || key == Key::Right || key == Key::Home || key == Key::End
}

/// No key breaks the editor: afterwards the buffer still keeps to its cap,
/// the cursor lies within the text, and the window starts at or before the
/// cursor and reaches it. The size of the field, the cap, the edit mode and
/// the place on the screen stay as they were.
pub proof fn lemma_key_keeps_wf(e: Editor, key: Key)
    requires
        e.wf(),
    ensures
        e.after(key).wf(),
        e.after(key).window_start <= e.after(key).cursor <= e.after(key).window_start
            + e.window_size,
        0 <= e.after(key).cursor <= e.after(key).buffer.len() <= e.max_length,
        e.after(key).window_size == e.window_size,
        e.after(key).max_length == e.max_length,
        e.after(key).mode == e.mode,
        e.after(key).position == e.position,
        e.after(key).pad_char == e.pad_char,
        e.after(key).colors == e.colors,
{
}

/// The same of any number of keys, one after the other.
pub proof fn lemma_keys_keep_wf(e: Editor, keys: Seq<Key>)
    requires
        e.wf(),
    ensures
        e.after_all(keys).wf(),
        e.after_all(keys).window_size == e.window_size,
        e.after_all(keys).max_length == e.max_length,
        e.after_all(keys).mode == e.mode,
    decreases keys.len(),
{
    if keys.len() > 0 {
        lemma_keys_keep_wf(e, keys.drop_last());
        lemma_key_keeps_wf(e.after_all(keys.drop_last()), keys.last());
    }
}

/// However often the cursor is moved left, right, home and to the end, the
/// text stays as it was and the cursor stays within it.
pub proof fn lemma_moves_stay_in_text(e: Editor, keys: Seq<Key>)
    requires
        e.wf(),
        forall|i: int| 0 <= i < keys.len() ==> is_move(#[trigger] keys[i]),
    ensures
        e.after_all(keys).buffer == e.buffer,
        0 <= e.after_all(keys).cursor <= e.buffer.len(),
        e.after_all(keys).wf(),
    decreases keys.len(),
{
    if keys.len() > 0 {
        let before = keys.drop_last();
        assert forall|i: int| 0 <= i < before.len() implies is_move(#[trigger] before[i]) by {
            assert(before[i] == keys[i]);
        }
        lemma_moves_stay_in_text(e, before);
        assert(is_move(keys[keys.len() - 1]));
    }
}

/// While inserting, the text never grows beyond the cap, and a character
/// that is not taken changes nothing at all.
pub proof fn lemma_insert_keeps_cap(e: Editor, c: char)
    requires
        e.wf(),
        e.mode == TextMode::Insert,
    ensures
        e.typed(c).buffer.len() <= e.max_length,
        e.buffer.len() >= e.max_length ==> e.typed(c) == e,
        e.buffer.len() < e.max_length ==> {
            &&& e.typed(c).buffer == e.buffer.insert(e.cursor, c)
            &&& e.typed(c).cursor == e.cursor + 1
        },
{
}

/// Overtyping a character of the text replaces it: the text keeps its
/// length and the cursor moves on by one.
pub proof fn lemma_overtype_keeps_length(e: Editor, c: char)
    requires
        e.wf(),
        e.mode == TextMode::Overtype,
        e.cursor < e.buffer.len(),
    ensures
        e.typed(c).buffer.len() == e.buffer.len(),
        e.typed(c).buffer == e.buffer.update(e.cursor, c),
        e.typed(c).cursor == e.cursor + 1,
{
}

/// What is typed at the end of the text while inserting is what the text
/// then ends with, as long as the cap is not reached; the cursor follows.
pub proof fn lemma_typed_text_is_kept(e: Editor, text: Seq<char>)
    requires
        e.wf(),
        e.mode == TextMode::Insert,
        e.cursor == e.buffer.len(),
        e.buffer.len() + text.len() <= e.max_length,
    ensures
        e.typed_all(text).buffer == e.buffer + text,
        e.typed_all(text).cursor == e.buffer.len() + text.len(),
        e.typed_all(text).wf(),
        e.typed_all(text).mode == TextMode::Insert,
        e.typed_all(text).max_length == e.max_length,
    decreases text.len(),
{
    if text.len() == 0 {
        assert(e.buffer + text =~= e.buffer);
    } else {
        let before = text.drop_last();
        lemma_typed_text_is_kept(e, before);
        let mid = e.typed_all(before);
        assert(mid.buffer.insert(mid.cursor, text.last()) =~= e.buffer + text);
    }
}

/// What `LineBuffer::render` hands out.
#[derive(Debug, Clone)]
pub struct LineRender {
    pub has_left_text: bool,
    pub visible: Vec<char>,
    pub has_right_text: bool,
    pub pad_length: usize,
    pub cursor_column: usize,
}

/// A one-line text editor whose field may be narrower than its text.
#[derive(Debug, Clone)]
pub struct LineBuffer {
    window_size: usize,
    max_buffer_len: usize,
    position: Position,
    pad_char: char,
    buffer: Vec<char>,
    colors: LineBufferColors,
    pos: usize,
    window_start: usize,
    mode: TextMode,
}

impl View for LineBuffer {
    type V = Editor;

    closed spec fn view(&self) -> Editor {
        Editor {
            buffer: self.buffer@,
            cursor: self.pos as int,
            window_start: self.window_start as int,
            window_size: self.window_size as int,
            max_length: self.max_buffer_len as int,
            mode: self.mode,
            position: self.position,
            pad_char: self.pad_char,
            colors: self.colors,
        }
    }
}

impl LineBuffer {
    /// An empty editor with the cursor at the start.
    pub fn new(
        window_size: usize,
        max_buffer_len: usize,
        position: Position,
        pad_char: char,
        mode: TextMode,
    ) -> (r: Self)
        ensures
            r@.wf(),
            r@.buffer == Seq::<char>::empty(),
            r@.cursor == 0,
            r@.window_start == 0,
            r@.window_size == window_size,
            r@.max_length == max_buffer_len,
            r@.mode == mode,
            r@.position == position,
            r@.pad_char == pad_char,
            r@.colors.focus == r@.colors.input,
    {
        Self {
            window_size,
            max_buffer_len,
            position,
            pad_char,
            buffer: Vec::new(),
            colors: LineBufferColors::default(),
            pos: 0,
            window_start: 0,
            mode,
        }
    }

    pub fn set_colors(&mut self, colors: LineBufferColors)
        ensures
            final(self)@ == (Editor { colors, ..old(self)@ }),
    {
        self.colors = colors;
    }

    pub fn set_mode(&mut self, mode: TextMode)
        ensures
            final(self)@ == (Editor { mode, ..old(self)@ }),
    {
        self.mode = mode;
    }

    /// Switches between inserting and overtyping, and returns the
    /// instruction that shapes the cursor for the new mode.
    pub fn toggle_insert(&mut self) -> (op: DrawOp)
        ensures
            final(self)@ == old(self)@.toggled(),
            op == DrawOp::CursorStyle(final(self)@.mode),
    {
        self.mode = match self.mode {
            TextMode::Overtype => TextMode::Insert,
            TextMode::Insert => TextMode::Overtype,
        };
        DrawOp::CursorStyle(self.mode)
    }

    pub fn set_position(&mut self, position: Position)
        ensures
            final(self)@ == (Editor { position, ..old(self)@ }),
    {
        self.position = position;
    }

    pub fn get_position(&self) -> (r: Position)
        ensures
            r == self@.position,
    {
        self.position
    }

    pub fn cursor(&self) -> (r: usize)
        ensures
            r == self@.cursor,
    {
        self.pos
    }

    pub fn window_start(&self) -> (r: usize)
        ensures
            r == self@.window_start,
    {
        self.window_start
    }

    pub fn mode(&self) -> (r: TextMode)
        ensures
            r == self@.mode,
    {
        self.mode
    }

    /// The text, character by character.
    pub fn chars(&self) -> (r: &Vec<char>)
        ensures
            r@ == self@.buffer,
    {
        &self.buffer
    }

    /// Puts the cursor at `pos`, or at the end of the text if `pos` lies
    /// beyond it, and lets the window follow.
    pub fn set_pos(&mut self, pos: usize)
        requires
            old(self)@.wf(),
        ensures
            final(self)@ == old(self)@.moved_to(pos as int),
            final(self)@.wf(),
    {
        self.pos = if pos <= self.buffer.len() { pos } else { self.buffer.len() };
        self.adjust_visible_window();
    }

    fn adjust_visible_window(&mut self)
        requires
            old(self)@.buffer.len() <= old(self)@.max_length,
            old(self)@.cursor <= old(self)@.buffer.len(),
            old(self)@.window_start <= old(self)@.buffer.len() + 1,
        ensures
            final(self)@ == old(self)@.scrolled(),
            final(self)@.wf(),
    {
        if self.pos < self.window_start {
            self.window_start = self.pos;
        } else if self.pos - self.window_start > self.window_size {
            self.window_start = self.pos - self.window_size;
        }
    }

    fn add_char(&mut self, c: char) -> (taken: bool)
        requires
            old(self)@.wf(),
        ensures
            taken == old(self)@.accepts(),
            final(self)@ == old(self)@.typed(c),
            final(self)@.wf(),
    {
        match self.mode {
            TextMode::Overtype => {
                if self.pos < self.buffer.len() {
                    self.buffer.set(self.pos, c);
                } else if self.buffer.len() < self.max_buffer_len {
                    self.buffer.push(c);
                    assert(self.buffer@ =~= old(self)@.buffer.insert(old(self)@.cursor, c));
                } else {
                    return false;
                }
            },
            TextMode::Insert => {
                if self.buffer.len() >= self.max_buffer_len {
                    return false;
                }
                self.buffer.insert(self.pos, c);
            },
        }
        let next: usize = self.pos + 1;
        self.set_pos(next);
        true
    }

    fn backspace(&mut self)
        requires
            old(self)@.wf(),
        ensures
            final(self)@ == old(self)@.backspaced(),
            final(self)@.wf(),
    {
        if self.pos > 0 {
            self.buffer.remove(self.pos - 1);
            let before: usize = self.pos - 1;
            self.pos = before;
            self.adjust_visible_window();
        }
    }

    fn delete(&mut self)
        requires
            old(self)@.wf(),
        ensures
            final(self)@ == old(self)@.deleted(),
            final(self)@.wf(),
    {
        if self.pos < self.buffer.len() {
            self.buffer.remove(self.pos);
            self.adjust_visible_window();
        }
    }

    fn move_left(&mut self)
        requires
            old(self)@.wf(),
        ensures
            final(self)@ == old(self)@.moved_left(),
            final(self)@.wf(),
    {
        if self.pos > 0 {
            let before: usize = self.pos - 1;
            self.set_pos(before);
        }
    }

    fn move_right(&mut self)
        requires
            old(self)@.wf(),
        ensures
            final(self)@ == old(self)@.moved_right(),
            final(self)@.wf(),
    {
        if self.pos < self.buffer.len() {
            let next: usize = self.pos + 1;
            self.set_pos(next);
        }
    }

    fn move_home(&mut self)
        requires
            old(self)@.wf(),
        ensures
            final(self)@ == old(self)@.moved_to(0),
            final(self)@.wf(),
    {
        self.set_pos(0);
    }

    fn move_end(&mut self)
        requires
            old(self)@.wf(),
        ensures
            final(self)@ == old(self)@.moved_to(old(self)@.buffer.len() as int),
            final(self)@.wf(),
    {
        let end: usize = self.buffer.len();
        self.set_pos(end);
    }

    /// Applies one key to the text, the cursor and the window, and returns
    /// the frame that shows the editor afterwards.
    pub fn handle_key(&mut self, key: Key) -> (ops: Vec<DrawOp>)
        requires
            old(self)@.wf(),
        ensures
            final(self)@ == old(self)@.after(key),
            final(self)@.wf(),
            ops@ == final(self)@.frame(),
    {
        match key {
            Key::Left => {
                self.move_left();
            },
            Key::Right => {
                self.move_right();
            },
            Key::Home => {
                self.move_home();
            },
            Key::End => {
                self.move_end();
            },
            Key::Backspace => {
                self.backspace();
            },
            Key::Delete => {
                self.delete();
            },
            Key::Char(c) => {
                self.add_char(c);
            },
            _ => {},
        }
        self.draw()
    }

    /// Takes a key code as the terminal reports it, sorts it into the keys
    /// that the editor tells apart, and applies that key as `handle_key`
    /// does. The modifiers play no part. A key code is opaque to the
    /// verifier, so the contract leaves open which key was applied: it says
    /// that the editor is as after some key and that the frame shows it. A
    /// caller that needs to know the key calls `handle_key`.
    pub fn handle_input(
        &mut self,
        code: crossterm::event::KeyCode,
        _modifiers: crossterm::event::KeyModifiers,
    ) -> (ops: Vec<DrawOp>)
        requires
            old(self)@.wf(),
        ensures
            exists|key: Key| final(self)@ == old(self)@.after(key),
            final(self)@.wf(),
            ops@ == final(self)@.frame(),
    {
        let key = decode(code);
        self.handle_key(key)
    }

    /// What the field shows: the visible part of the text, whether text is
    /// hidden on either side, the cells left to pad, and the cursor's column.
    pub fn render(&self) -> (r: LineRender)
        requires
            self@.wf(),
        ensures
            r.visible@ == self@.visible(),
            r.has_left_text == self@.overflows_left(),
            r.has_right_text == self@.overflows_right(),
            r.pad_length == self@.padding(),
            r.cursor_column == self@.cursor_column(),
    {
        let end: usize = self.window_end();
        let mut visible: Vec<char> = Vec::new();
        let mut i: usize = self.window_start;
        while i < end
            invariant
                self.window_start <= i <= end <= self.buffer@.len(),
                visible@ == self.buffer@.subrange(self.window_start as int, i as int),
            decreases end - i,
        {
            visible.push(self.buffer[i]);
            i += 1;
            assert(visible@ =~= self.buffer@.subrange(self.window_start as int, i as int));
        }
        LineRender {
            has_left_text: self.window_start > 0,
            visible,
            has_right_text: end < self.buffer.len(),
            pad_length: self.window_size - (end - self.window_start),
            cursor_column: self.pos - self.window_start,
        }
    }

    fn window_end(&self) -> (end: usize)
        requires
            self@.wf(),
        ensures
            end == self@.window_end(),
            self@.window_start <= end <= self@.buffer.len(),
            end - self@.window_start <= self@.window_size,
    {
        if self.buffer.len() - self.window_start >= self.window_size {
            self.window_start + self.window_size
        } else {
            self.buffer.len()
        }
    }

    /// The frame that shows the editor as it is.
    pub fn draw(&self) -> (ops: Vec<DrawOp>)
        requires
            self@.wf(),
        ensures
            ops@ == self@.frame(),
    {
        let end: usize = self.window_end();
        let mut ops: Vec<DrawOp> = Vec::new();
        ops.push(DrawOp::MoveTo(offset(self.position.x as u128, 1), self.position.y));
        ops.push(DrawOp::SetColors(self.colors.focus));
        ops.push(DrawOp::Put(if self.window_start > 0 { '<' } else { ' ' }));
        ops.push(DrawOp::SetColors(self.colors.input));
        put_text(&mut ops, &self.buffer, self.window_start, end);
        put_run(&mut ops, self.pad_char, self.window_size - (end - self.window_start));
        ops.push(DrawOp::SetColors(self.colors.focus));
        ops.push(DrawOp::Put(if end < self.buffer.len() { '>' } else { ' ' }));
        ops.push(
            DrawOp::MoveTo(
                offset(self.position.x as u128 + (self.pos - self.window_start) as u128, 0),
                self.position.y,
            ),
        );
        ops.push(DrawOp::CursorStyle(self.mode));
        ops.push(DrawOp::Flush);
        assert(ops@ =~= self@.frame());
        ops
    }
}

} // verus!
