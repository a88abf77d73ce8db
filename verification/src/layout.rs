use vstd::prelude::*;
use crate::controls::{all_wf, models, Control, ControlModel};
use crate::dialog::ButtonCount;
use crate::utils::{offset, saturate, Position, Size};

verus! {

/// What the placing of the controls goes by: where the dialog stands, how
/// large it is, its margin, the width of its longest label and the number of
/// its buttons.
#[derive(Debug, Clone, Copy)]
pub struct DialogSpecs {
    pub position: Position,
    pub size: Size,
    pub margin: Position,
    pub max_name_len: usize,
    pub button_count: Option<ButtonCount>,
}

/// The width of a dialog without controls and without margin.
pub const BASE_WIDTH: usize = 2;

/// The height of a dialog without fields and without margin: the top
/// border, the split line, the row of the buttons and the bottom border.
pub const BASE_HEIGHT: usize = 4;

/// The width that a control asks of the dialog's inside when it is a text
/// field: its label, a colon and a blank, its window and the two cells for
/// the overflow indicators. A button asks for none here.
pub open spec fn field_need(control: ControlModel) -> int {
    match control {
        ControlModel::TextField(f) => (f.name.len() + f.display_len + 4) as int,
        ControlModel::Button(_) => 0,
    }
}

/// The width that a button takes in the row of the buttons: its name and
/// six cells around it.
pub open spec fn button_need(control: ControlModel) -> int {
    match control {
        ControlModel::TextField(_) => 0,
        ControlModel::Button(b) => (b.name.len() + 6) as int,
    }
}

/// The width of a control's label when it is a text field.
pub open spec fn label_len(control: ControlModel) -> int {
    match control {
        ControlModel::TextField(f) => f.name.len() as int,
        ControlModel::Button(_) => 0,
    }
}

/// The greatest of `measure` over the controls; zero if there are none.
pub open spec fn greatest(controls: Seq<ControlModel>, measure: spec_fn(ControlModel) -> int) -> int
    decreases controls.len(),
{
    if controls.len() == 0 {
        0
    } else {
        let rest = greatest(controls.drop_last(), measure);
        let last = measure(controls.last());
        if last > rest {
            last
        } else {
            rest
        }
    }
}

/// The sum of `measure` over the controls.
pub open spec fn total(controls: Seq<ControlModel>, measure: spec_fn(ControlModel) -> int) -> int
    decreases controls.len(),
{
    if controls.len() == 0 {
        0
    } else {
        total(controls.drop_last(), measure) + measure(controls.last())
    }
}

/// One for a text field, zero for a button.
pub open spec fn is_field(control: ControlModel) -> int {
    match control {
        ControlModel::TextField(_) => 1,
        ControlModel::Button(_) => 0,
    }
}

/// One for a button, zero for a text field.
pub open spec fn is_button(control: ControlModel) -> int {
    match control {
        ControlModel::TextField(_) => 0,
        ControlModel::Button(_) => 1,
    }
}

/// The width of the longest label.
pub open spec fn longest_label(controls: Seq<ControlModel>) -> int {
    greatest(controls, |c: ControlModel| label_len(c))
}

/// The number of text fields.
pub open spec fn field_count(controls: Seq<ControlModel>) -> int {
    total(controls, |c: ControlModel| is_field(c))
}

/// The number of buttons.
pub open spec fn button_count(controls: Seq<ControlModel>) -> int {
    total(controls, |c: ControlModel| is_button(c))
}

/// The least width of the dialog: wide enough for its widest text field and
/// for the row of its buttons, each with the margin on both sides, and never
/// less than the base width with the margin on both sides.
pub open spec fn min_width(controls: Seq<ControlModel>, margin: Position) -> int {
    let fields = greatest(controls, |c: ControlModel| field_need(c)) + 2 * margin.x;
    let buttons = total(controls, |c: ControlModel| button_need(c)) + 2 * margin.x;
    let base = BASE_WIDTH + 2 * margin.x;
    if fields >= buttons && fields >= base {
        fields
    } else if buttons >= base {
        buttons
    } else {
        base
    }
}

/// The least height of the dialog: the base height, two rows for each text
/// field, and the margin above and below.
pub open spec fn min_height(controls: Seq<ControlModel>, margin: Position) -> int {
    BASE_HEIGHT + 2 * field_count(controls) + 2 * margin.y
}

/// The least size of the dialog, as far as the machine can count.
pub open spec fn min_size(controls: Seq<ControlModel>, margin: Position) -> Size {
    Size {
        width: saturate(min_width(controls, margin)),
        height: saturate(min_height(controls, margin)),
    }
}

/// Where a dialog of `size` stands in the middle of `screen`: half the
/// screen less half the dialog, each half rounded down, and at the edge if
/// the dialog is larger than the screen.
pub open spec fn centered(screen: Size, size: Size) -> Position {
    Position {
        x: saturate(screen.width / 2 - size.width / 2),
        y: saturate(screen.height / 2 - size.height / 2),
    }
}

/// Whether a dialog with `count` buttons has a place for the button `slot`:
/// it has none for a third button among two.
pub open spec fn slot_fits(slot: ButtonCount, count: ButtonCount) -> bool {
    !(slot == ButtonCount::Three && count == ButtonCount::Two)
}

/// Whether a button stands in the middle of its row: a single button does,
/// and the second of three.
pub open spec fn stands_in_the_middle(slot: ButtonCount, count: ButtonCount) -> bool {
    count == ButtonCount::One || (slot == ButtonCount::Two && count == ButtonCount::Three)
}

/// The column at which a name of `len` cells starts so that it stands in
/// the middle of the dialog: half of the cells that the name leaves free lie
/// before it, rounded down. A name wider than the dialog starts at the
/// dialog's left edge.
pub open spec fn middle_column(len: int, specs: DialogSpecs) -> int {
    if len <= specs.size.width {
        specs.position.x + (specs.size.width - len) / 2
    } else {
        specs.position.x as int
    }
}

/// The column of a button named `name`: a single button and the second of
/// three stand in the middle, the first of two or three at the left margin,
/// the last of two or three at the right margin.
pub open spec fn button_column(
    name: Seq<char>,
    slot: ButtonCount,
    count: ButtonCount,
    specs: DialogSpecs,
) -> int {
    if stands_in_the_middle(slot, count) {
        middle_column(name.len() as int, specs)
    } else if slot == ButtonCount::One {
        specs.position.x + specs.margin.x + 1
    } else {
        specs.position.x + specs.size.width - specs.margin.x - name.len() - 1
    }
}

/// A button in the middle has as many free cells of the dialog's width
/// before it as after it, or one fewer, where the name is no wider than the
/// dialog. A button at the left margin starts one cell after the margin,
/// and a button at the right margin ends one cell before it.
pub proof fn lemma_button_columns(
    name: Seq<char>,
    slot: ButtonCount,
    count: ButtonCount,
    specs: DialogSpecs,
)
    ensures
        stands_in_the_middle(slot, count) && name.len() <= specs.size.width ==> {
            let before = button_column(name, slot, count, specs) - specs.position.x;
            let after = specs.size.width - name.len() - before;
            &&& 0 <= before
            &&& before <= after <= before + 1
            &&& -1 <= 2 * before + name.len() - specs.size.width <= 1
        },
        stands_in_the_middle(slot, count) && name.len() > specs.size.width ==> button_column(
            name,
            slot,
            count,
            specs,
        ) == specs.position.x,
        !stands_in_the_middle(slot, count) && slot == ButtonCount::One ==> button_column(
            name,
            slot,
            count,
            specs,
        ) == specs.position.x + specs.margin.x + 1,
        !stands_in_the_middle(slot, count) && slot != ButtonCount::One ==> button_column(
            name,
            slot,
            count,
            specs,
        ) + name.len() == specs.position.x + specs.size.width - specs.margin.x - 1,
{
}

/// Where a control stands in a dialog. The text fields stand one below the
/// other, two rows apart, in the order of their indexes, with their labels
/// flush right. The buttons stand in the row above the bottom border; where
/// the dialog has none counted, a button stays where it is.
pub open spec fn position_of(control: ControlModel, specs: DialogSpecs) -> Position {
    match control {
        ControlModel::TextField(f) => Position {
            x: saturate(
                specs.position.x + 1 + specs.margin.x + specs.max_name_len - f.name.len(),
            ),
            y: saturate(specs.position.y + 1 + specs.margin.y + 2 * f.index),
        },
        ControlModel::Button(b) => match specs.button_count {
            Some(count) => Position {
                x: saturate(button_column(b.name, b.index, count, specs)),
                y: saturate(specs.position.y + specs.size.height - 2),
            },
            None => b.position,
        },
    }
}

/// The controls, each at its place.
pub open spec fn placed_all(controls: Seq<ControlModel>, specs: DialogSpecs) -> Seq<ControlModel> {
    Seq::new(controls.len(), |i: int| controls[i].placed(position_of(controls[i], specs)))
}

/// The size that the dialog needs.
pub fn calc_min_size(controls: &Vec<Control>, margin: Position) -> (size: Size)
    ensures
        size == min_size(models(controls@), margin),
{
    let ghost all = models(controls@);
    let ghost field_width = |c: ControlModel| field_need(c);
    let ghost button_width = |c: ControlModel| button_need(c);
    let ghost field_one = |c: ControlModel| is_field(c);
    let mut fields: usize = 0;
    let mut buttons: usize = 0;
    let mut rows: usize = 0;
    let mut i: usize = 0;
    while i < controls.len()
        invariant
            i <= controls@.len(),
            all == models(controls@),
            field_width == |c: ControlModel| field_need(c),
            button_width == |c: ControlModel| button_need(c),
            field_one == |c: ControlModel| is_field(c),
            0 <= greatest(all.subrange(0, i as int), field_width),
            0 <= total(all.subrange(0, i as int), button_width),
            fields == saturate(greatest(all.subrange(0, i as int), field_width)),
            buttons == saturate(total(all.subrange(0, i as int), button_width)),
            rows == total(all.subrange(0, i as int), field_one),
            rows <= i,
        decreases controls@.len() - i,
    {
        proof {
            assert(all.subrange(0, i + 1).drop_last() =~= all.subrange(0, i as int));
            assert(all.subrange(0, i + 1).last() == controls@[i as int]@);
        }
        match &controls[i] {
            Control::TextField(f) => {
                let need: usize = offset(
                    f.name_len() as u128 + f.get_display_window() as u128 + 4,
                    0,
                );
                if need > fields {
                    fields = need;
                }
                rows += 1;
            },
            Control::Button(b) => {
                buttons = offset(buttons as u128 + b.name_len() as u128 + 6, 0);
            },
        }
        i += 1;
    }
    proof {
        assert(all.subrange(0, i as int) =~= all);
    }
    let both: u128 = 2 * (margin.x as u128);
    let for_fields: usize = offset(fields as u128 + both, 0);
    let for_buttons: usize = offset(buttons as u128 + both, 0);
    let base: usize = offset(BASE_WIDTH as u128 + both, 0);
    let width: usize = if for_fields >= for_buttons && for_fields >= base {
        for_fields
    } else if for_buttons >= base {
        for_buttons
    } else {
        base
    };
    let height: usize = offset(
        BASE_HEIGHT as u128 + 2 * (rows as u128) + 2 * (margin.y as u128),
        0,
    );
    Size { width, height }
}

/// The width of the longest label among the text fields.
pub fn calc_longest_label(controls: &Vec<Control>) -> (longest: usize)
    ensures
        longest == longest_label(models(controls@)),
{
    let ghost all = models(controls@);
    let ghost measure = |c: ControlModel| label_len(c);
    let mut longest: usize = 0;
    let mut i: usize = 0;
    while i < controls.len()
        invariant
            i <= controls@.len(),
            all == models(controls@),
            measure == |c: ControlModel| label_len(c),
            longest == greatest(all.subrange(0, i as int), measure),
        decreases controls@.len() - i,
    {
        proof {
            assert(all.subrange(0, i + 1).drop_last() =~= all.subrange(0, i as int));
            assert(all.subrange(0, i + 1).last() == controls@[i as int]@);
        }
        match &controls[i] {
            Control::TextField(f) => {
                let len: usize = f.name_len();
                if len > longest {
                    longest = len;
                }
            },
            Control::Button(_) => {},
        }
        i += 1;
    }
    proof {
        assert(all.subrange(0, i as int) =~= all);
    }
    longest
}

/// Where a dialog of `size` stands in the middle of `screen`.
pub fn calc_origin(screen: Size, size: Size) -> (origin: Position)
    ensures
        origin == centered(screen, size),
{
    Position {
        x: offset((screen.width / 2) as u128, (size.width / 2) as u128),
        y: offset((screen.height / 2) as u128, (size.height / 2) as u128),
    }
}

/// Where `control` stands in a dialog.
pub fn place(control: &Control, specs: &DialogSpecs) -> (position: Position)
    ensures
        position == position_of(control@, *specs),
{
    match control {
        Control::TextField(f) => Position {
            x: offset(
                specs.position.x as u128 + 1 + specs.margin.x as u128
                    + specs.max_name_len as u128,
                f.name_len() as u128,
            ),
            y: offset(
                specs.position.y as u128 + 1 + specs.margin.y as u128 + 2 * (
                f.get_field_index() as u128),
                0,
            ),
        },
        Control::Button(b) => match specs.button_count {
            Some(count) => {
                let len: u128 = b.name_len() as u128;
                let x: usize = match (b.get_index(), count) {
                    (_, ButtonCount::One) | (ButtonCount::Two, ButtonCount::Three) => {
                        let free: usize = offset(specs.size.width as u128, len);
                        offset(specs.position.x as u128 + (free / 2) as u128, 0)
                    },
                    (ButtonCount::One, _) => offset(
                        specs.position.x as u128 + specs.margin.x as u128 + 1,
                        0,
                    ),
                    _ => offset(
                        specs.position.x as u128 + specs.size.width as u128,
                        specs.margin.x as u128 + len + 1,
                    ),
                };
                Position {
                    x,
                    y: offset(specs.position.y as u128 + specs.size.height as u128, 2),
                }
            },
            None => b.get_position(),
        },
    }
}

/// Puts every control at its place.
pub fn place_all(controls: &mut Vec<Control>, specs: &DialogSpecs)
    requires
        all_wf(old(controls)@),
    ensures
        all_wf(final(controls)@),
        models(final(controls)@) == placed_all(models(old(controls)@), *specs),
{
    let ghost all = models(controls@);
    let mut i: usize = 0;
    while i < controls.len()
        invariant
            i <= controls@.len(),
            controls@.len() == old(controls)@.len(),
            all == models(old(controls)@),
            all_wf(controls@),
            forall|j: int|
                0 <= j < i ==> (#[trigger] controls@[j])@ == all[j].placed(
                    position_of(all[j], *specs),
                ),
            forall|j: int| i <= j < controls@.len() ==> #[trigger] controls@[j] == old(controls)@[j],
        decreases controls@.len() - i,
    {
        proof {
            assert(controls@[i as int].wf());
        }
        let ghost before = controls@;
        let position = place(&controls[i], specs);
        controls[i].set_position(position);
        proof {
            assert forall|j: int| 0 <= j < controls@.len() implies (#[trigger] controls@[j]).wf() by {
                if j != i {
                    assert(before[j].wf());
                }
            }
        }
        i += 1;
    }
    proof {
        assert(models(controls@) =~= placed_all(all, *specs));
    }
}

} // verus!
