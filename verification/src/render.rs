use vstd::prelude::*;
use crate::line_buffer::TextMode;

verus! {

/// One instruction to the terminal. A frame is a sequence of them, carried
/// out in order; cells are addressed from the top-left corner, from zero.
#[derive(Debug, Clone, Copy, PartialEq, Eq)]
pub enum DrawOp {
    /// Use this pair of colours for what is written next.
    SetColors(crossterm::style::Colors),
    /// Move the cursor to column `.0` of row `.1`.
    MoveTo(usize, usize),
    /// Write one character at the cursor and advance by one cell.
    Put(char),
    /// Fill the whole grid with the current colours.
    ClearAll,
    ShowCursor,
    HideCursor,
    /// Shape the cursor for this edit mode: a bar to insert, an underscore
    /// to overtype.
    CursorStyle(TextMode),
    /// Everything up to here belongs to one frame.
    Flush,
}

/// The instructions that write `text` from the cursor on.
pub open spec fn puts(text: Seq<char>) -> Seq<DrawOp>
    decreases text.len(),
{
    if text.len() == 0 {
        Seq::empty()
    } else {
        puts(text.drop_last()).push(DrawOp::Put(text.last()))
    }
}

/// The instructions that write `glyph` `count` times.
pub open spec fn run(glyph: char, count: nat) -> Seq<DrawOp> {
    Seq::new(count, |i: int| DrawOp::Put(glyph))
}

/// Writing one character more of `text` takes one more instruction.
pub proof fn lemma_puts_step(text: Seq<char>, from: int, to: int, c: char)
    requires
        0 <= from <= to < text.len(),
        c == text[to],
    ensures
        puts(text.subrange(from, to + 1)) == puts(text.subrange(from, to)).push(DrawOp::Put(c)),
{
    let longer = text.subrange(from, to + 1);
    assert(longer.drop_last() =~= text.subrange(from, to));
    assert(longer.last() == c);
}

/// The character at `index`.
pub fn char_at(text: &Vec<char>, index: usize) -> (c: char)
    requires
        index < text@.len(),
    ensures
        c == text@[index as int],
{
    text[index]
}

/// Appends the instructions that write `text[from..to]`.
pub fn put_text(ops: &mut Vec<DrawOp>, text: &Vec<char>, from: usize, to: usize)
    requires
        from <= to <= text@.len(),
    ensures
        final(ops)@ == old(ops)@ + puts(text@.subrange(from as int, to as int)),
{
    let mut i: usize = from;
    while i < to
        invariant
            from <= i <= to <= text@.len(),
            ops@ =~= old(ops)@ + puts(text@.subrange(from as int, i as int)),
        decreases to - i,
    {
        let c: char = char_at(text, i);
        proof {
            lemma_puts_step(text@, from as int, i as int, c);
        }
        ops.push(DrawOp::Put(c));
        i += 1;
    }
}

/// Appends the instructions that write all of `text`.
pub fn put_str(ops: &mut Vec<DrawOp>, text: &str)
    ensures
        final(ops)@ == old(ops)@ + puts(text@),
{
    let n: usize = text.unicode_len();
    let mut i: usize = 0;
    while i < n
        invariant
            n == text@.len(),
            i <= n,
            ops@ =~= old(ops)@ + puts(text@.subrange(0, i as int)),
        decreases n - i,
    {
        let c: char = text.get_char(i);
        proof {
            lemma_puts_step(text@, 0, i as int, c);
        }
        ops.push(DrawOp::Put(c));
        i += 1;
    }
    assert(text@.subrange(0, n as int) =~= text@);
}

/// Appends the instructions that write `glyph` `count` times.
pub fn put_run(ops: &mut Vec<DrawOp>, glyph: char, count: usize)
    ensures
        final(ops)@ == old(ops)@ + run(glyph, count as nat),
{
    let mut i: usize = 0;
    while i < count
        invariant
            i <= count,
            ops@ =~= old(ops)@ + run(glyph, i as nat),
        decreases count - i,
    {
        ops.push(DrawOp::Put(glyph));
        i += 1;
        assert(ops@ =~= old(ops)@ + run(glyph, i as nat));
    }
}

/// Appends all of `more`.
pub fn put_all(ops: &mut Vec<DrawOp>, more: &Vec<DrawOp>)
    ensures
        final(ops)@ == old(ops)@ + more@,
{
    let mut i: usize = 0;
    while i < more.len()
        invariant
            i <= more@.len(),
            ops@ =~= old(ops)@ + more@.subrange(0, i as int),
        decreases more@.len() - i,
    {
        ops.push(more[i]);
        i += 1;
        assert(ops@ =~= old(ops)@ + more@.subrange(0, i as int));
    }
    assert(more@.subrange(0, more@.len() as int) =~= more@);
}

} // verus!
