use vstd::prelude::*;
use crate::borders::BorderChars;
use crate::colors::DialogColors;
use crate::render::{put_run, put_str, puts, run, DrawOp};
use crate::utils::{offset, saturate, Position, Size};

verus! {

/// The cells of a row between the two vertical edges.
pub open spec fn inner_width(size: Size) -> nat {
    saturate(size.width - 2) as nat
}

/// The rows between the top and the bottom edge.
pub open spec fn inner_height(size: Size) -> nat {
    saturate(size.height - 2) as nat
}

/// The frame that rules one row from column `x` on: `left`, then `middle`
/// over the inner width, then `right`.
pub open spec fn row_frame(x: usize, y: usize, left: char, middle: char, right: char, size: Size) -> Seq<
    DrawOp,
> {
    seq![DrawOp::MoveTo(x, y), DrawOp::Put(left)] + run(middle, inner_width(size)) + seq![
        DrawOp::Put(right),
    ]
}

/// The frame that draws the two vertical edges of one inner row, counted
/// from zero.
pub open spec fn side_frame(position: Position, size: Size, chars: BorderChars, row: int) -> Seq<
    DrawOp,
> {
    seq![
        DrawOp::MoveTo(position.x, saturate(position.y + 1 + row)),
        DrawOp::Put(chars.left),
        DrawOp::MoveTo(saturate(position.x + size.width - 1), saturate(position.y + 1 + row)),
        DrawOp::Put(chars.right),
    ]
}

/// The frame that draws the vertical edges of the first `rows` inner rows.
pub open spec fn sides_frame(position: Position, size: Size, chars: BorderChars, rows: nat) -> Seq<
    DrawOp,
>
    decreases rows,
{
    if rows == 0 {
        Seq::empty()
    } else {
        sides_frame(position, size, chars, (rows - 1) as nat) + side_frame(
            position,
            size,
            chars,
            rows - 1,
        )
    }
}

/// The frame that blanks the inside of one inner row, counted from zero.
pub open spec fn blank_frame(position: Position, size: Size, row: int) -> Seq<DrawOp> {
    seq![DrawOp::MoveTo(saturate(position.x + 1), saturate(position.y + 1 + row))] + run(
        ' ',
        inner_width(size),
    )
}

/// The frame that blanks the inside of the first `rows` inner rows.
pub open spec fn blanks_frame(position: Position, size: Size, rows: nat) -> Seq<DrawOp>
    decreases rows,
{
    if rows == 0 {
        Seq::empty()
    } else {
        blanks_frame(position, size, (rows - 1) as nat) + blank_frame(position, size, rows - 1)
    }
}

/// The frame that fills the inside of the dialog, if it is to be filled.
pub open spec fn fill_frame(position: Position, size: Size, colors: DialogColors, fill: bool) -> Seq<
    DrawOp,
> {
    if fill {
        seq![DrawOp::SetColors(colors.fill)] + blanks_frame(position, size, inner_height(size))
    } else {
        Seq::empty()
    }
}

/// The frame that draws the border: the top edge with its corners, the two
/// vertical edges row by row, the bottom edge with its corners, and then
/// the filling.
pub open spec fn border_frame(
    position: Position,
    size: Size,
    chars: BorderChars,
    colors: DialogColors,
    fill: bool,
) -> Seq<DrawOp> {
    seq![DrawOp::SetColors(colors.border)] + row_frame(
        position.x,
        position.y,
        chars.tl,
        chars.top,
        chars.tr,
        size,
    ) + sides_frame(position, size, chars, inner_height(size)) + row_frame(
        position.x,
        saturate(position.y + size.height - 1),
        chars.bl,
        chars.bottom,
        chars.br,
        size,
    ) + fill_frame(position, size, colors, fill)
}

/// The frame that draws the line above the buttons, two rows above the
/// bottom edge.
pub open spec fn split_frame(position: Position, size: Size, chars: BorderChars, colors: DialogColors) -> Seq<
    DrawOp,
> {
    seq![DrawOp::SetColors(colors.border)] + row_frame(
        position.x,
        saturate(position.y + size.height - 3),
        chars.left_intersect,
        chars.split,
        chars.right_intersect,
        size,
    )
}

/// The frame that writes the title into the top edge, four cells from the
/// corner.
pub open spec fn title_frame(position: Position, title: Seq<char>) -> Seq<DrawOp> {
    seq![DrawOp::MoveTo(saturate(position.x + 4), position.y)] + puts(title)
}

/// The frame that covers the whole screen, if the dialog has an overlay.
pub open spec fn overlay_frame(colors: DialogColors, overlay: bool) -> Seq<DrawOp> {
    if overlay {
        seq![DrawOp::SetColors(colors.overlay), DrawOp::ClearAll]
    } else {
        Seq::empty()
    }
}

/// The inner width of a dialog of `size`.
pub fn calc_inner_width(size: Size) -> (width: usize)
    ensures
        width == inner_width(size),
{
    offset(size.width as u128, 2)
}

/// Appends the frame that rules one row.
pub fn put_row(
    ops: &mut Vec<DrawOp>,
    x: usize,
    y: usize,
    left: char,
    middle: char,
    right: char,
    size: Size,
)
    ensures
        final(ops)@ == old(ops)@ + row_frame(x, y, left, middle, right, size),
{
    ops.push(DrawOp::MoveTo(x, y));
    ops.push(DrawOp::Put(left));
    put_run(ops, middle, calc_inner_width(size));
    ops.push(DrawOp::Put(right));
    assert(ops@ =~= old(ops)@ + row_frame(x, y, left, middle, right, size));
}

/// Appends the frame that draws the border.
pub fn put_border(
    ops: &mut Vec<DrawOp>,
    position: Position,
    size: Size,
    chars: BorderChars,
    colors: DialogColors,
    fill: bool,
)
    ensures
        final(ops)@ == old(ops)@ + border_frame(position, size, chars, colors, fill),
{
    let rows: usize = offset(size.height as u128, 2);
    let right_x: usize = offset(position.x as u128 + size.width as u128, 1);
    ops.push(DrawOp::SetColors(colors.border));
    put_row(ops, position.x, position.y, chars.tl, chars.top, chars.tr, size);
    let ghost top = ops@;
    let mut row: usize = 0;
    while row < rows
        invariant
            row <= rows,
            rows == inner_height(size),
            right_x == saturate(position.x + size.width - 1),
            ops@ =~= top + sides_frame(position, size, chars, row as nat),
        decreases rows - row,
    {
        let y: usize = offset(position.y as u128 + 1 + row as u128, 0);
        ops.push(DrawOp::MoveTo(position.x, y));
        ops.push(DrawOp::Put(chars.left));
        ops.push(DrawOp::MoveTo(right_x, y));
        ops.push(DrawOp::Put(chars.right));
        row += 1;
    }
    put_row(
        ops,
        position.x,
        offset(position.y as u128 + size.height as u128, 1),
        chars.bl,
        chars.bottom,
        chars.br,
        size,
    );
    let ghost edges = ops@;
    if fill {
        ops.push(DrawOp::SetColors(colors.fill));
        let ghost start = ops@;
        let left_x: usize = offset(position.x as u128 + 1, 0);
        let mut row: usize = 0;
        while row < rows
            invariant
                row <= rows,
                rows == inner_height(size),
                left_x == saturate(position.x + 1),
                ops@ =~= start + blanks_frame(position, size, row as nat),
            decreases rows - row,
        {
            ops.push(DrawOp::MoveTo(left_x, offset(position.y as u128 + 1 + row as u128, 0)));
            put_run(ops, ' ', calc_inner_width(size));
            row += 1;
        }
    }
    assert(ops@ =~= old(ops)@ + border_frame(position, size, chars, colors, fill));
}

/// Appends the frame that draws the line above the buttons.
pub fn put_split(
    ops: &mut Vec<DrawOp>,
    position: Position,
    size: Size,
    chars: BorderChars,
    colors: DialogColors,
)
    ensures
        final(ops)@ == old(ops)@ + split_frame(position, size, chars, colors),
{
    ops.push(DrawOp::SetColors(colors.border));
    put_row(
        ops,
        position.x,
        offset(position.y as u128 + size.height as u128, 3),
        chars.left_intersect,
        chars.split,
        chars.right_intersect,
        size,
    );
    assert(ops@ =~= old(ops)@ + split_frame(position, size, chars, colors));
}

/// Appends the frame that writes the title.
pub fn put_title(ops: &mut Vec<DrawOp>, position: Position, title: &str)
    ensures
        final(ops)@ == old(ops)@ + title_frame(position, title@),
{
    ops.push(DrawOp::MoveTo(offset(position.x as u128 + 4, 0), position.y));
    put_str(ops, title);
    assert(ops@ =~= old(ops)@ + title_frame(position, title@));
}

/// Appends the frame that covers the screen, if there is an overlay.
pub fn put_overlay(ops: &mut Vec<DrawOp>, colors: DialogColors, overlay: bool)
    ensures
        final(ops)@ == old(ops)@ + overlay_frame(colors, overlay),
{
    if overlay {
        ops.push(DrawOp::SetColors(colors.overlay));
        ops.push(DrawOp::ClearAll);
    }
    assert(ops@ =~= old(ops)@ + overlay_frame(colors, overlay));
}

} // verus!
