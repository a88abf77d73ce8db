use vstd::prelude::*;
use crate::colors::DialogColors;
use crate::controls::button::{Button, ButtonModel};
use crate::controls::field::{Field, FieldModel};
use crate::dialog::{DialogResult, DialogReturnValue};
use crate::keys::Key;
use crate::line_buffer::TextMode;
use crate::render::{put_all, DrawOp};
use crate::utils::Position;

pub mod button;
pub mod field;

verus! {

/// What a control is, as mathematics.
pub enum ControlModel {
    TextField(FieldModel),
    Button(ButtonModel),
}

impl ControlModel {
    /// The control's rank in the order of focus; none if it never has the
    /// focus.
    pub open spec fn tab_index(self) -> Option<usize> {
        match self {
            ControlModel::TextField(f) => f.tab_index,
            ControlModel::Button(b) => b.tab_index,
        }
    }

    pub open spec fn name(self) -> Seq<char> {
        match self {
            ControlModel::TextField(f) => f.name,
            ControlModel::Button(b) => b.name,
        }
    }

    /// The name and the value of a text field; a button has none.
    pub open spec fn value(self) -> Option<(Seq<char>, Seq<char>)> {
        match self {
            ControlModel::TextField(f) => Some((f.name, f.editor.buffer)),
            ControlModel::Button(_) => None,
        }
    }

    /// The frame that writes the control.
    pub open spec fn frame(self) -> Seq<DrawOp> {
        match self {
            ControlModel::TextField(f) => f.frame(),
            ControlModel::Button(b) => b.frame(),
        }
    }

    /// The control after a key: a text field edits, a button stays as it is.
    pub open spec fn after(self, key: Key, mode: TextMode) -> ControlModel {
        match self {
            ControlModel::TextField(f) => ControlModel::TextField(f.after(key, mode)),
            ControlModel::Button(b) => self,
        }
    }

    /// The outcome with which a key ends the dialog, if it does: that of a
    /// button that the key presses.
    pub open spec fn outcome(self, key: Key) -> Option<DialogResult> {
        match self {
            ControlModel::TextField(_) => None,
            ControlModel::Button(b) => if ButtonModel::activates(key) {
                Some(b.result)
            } else {
                None
            },
        }
    }

    /// The frame with which the control answers a key: a text field shows
    /// its editor again, a button writes nothing.
    pub open spec fn key_frame(self, key: Key, mode: TextMode) -> Seq<DrawOp> {
        match self {
            ControlModel::TextField(f) => f.after(key, mode).editor.frame(),
            ControlModel::Button(_) => Seq::empty(),
        }
    }

    /// The frame that marks the control as the one that has the focus.
    pub open spec fn focus_frame(self) -> Seq<DrawOp> {
        match self {
            ControlModel::TextField(f) => f.focus_frame(),
            ControlModel::Button(b) => b.brackets('<', '>'),
        }
    }

    /// The control after it lost the focus.
    pub open spec fn unfocused(self) -> ControlModel {
        match self {
            ControlModel::TextField(f) => ControlModel::TextField(f.unfocused()),
            ControlModel::Button(_) => self,
        }
    }

    /// The frame that takes the mark of the focus away.
    pub open spec fn unfocus_frame(self) -> Seq<DrawOp> {
        match self {
            ControlModel::TextField(f) => f.unfocus_frame(),
            ControlModel::Button(b) => b.brackets(' ', ' '),
        }
    }

    /// The control with `mode` as the edit mode of its editor, if it has one.
    pub open spec fn with_mode(self, mode: TextMode) -> ControlModel {
        match self {
            ControlModel::TextField(f) => ControlModel::TextField(f.with_mode(mode)),
            ControlModel::Button(_) => self,
        }
    }

    /// The control at `position`.
    pub open spec fn placed(self, position: Position) -> ControlModel {
        match self {
            ControlModel::TextField(f) => ControlModel::TextField(f.placed(position)),
            ControlModel::Button(b) => ControlModel::Button(ButtonModel { position, ..b }),
        }
    }

    /// The control in the colours that the theme has for its kind.
    pub open spec fn themed(self, colors: DialogColors) -> ControlModel {
        match self {
            ControlModel::TextField(f) => ControlModel::TextField(f.themed(colors.fields)),
            ControlModel::Button(b) => ControlModel::Button(
                ButtonModel { colors: colors.buttons, ..b },
            ),
        }
    }

    /// The editor of a text field is in order.
    pub open spec fn wf(self) -> bool {
        match self {
            ControlModel::TextField(f) => f.editor.wf(),
            ControlModel::Button(_) => true,
        }
    }
}

/// The controls as mathematics.
pub open spec fn models(controls: Seq<Control>) -> Seq<ControlModel> {
    Seq::new(controls.len(), |i: int| controls[i]@)
}

/// What the text fields among the controls hold, by name: of two fields
/// with the same name the later one counts.
pub open spec fn field_values(controls: Seq<ControlModel>) -> Map<Seq<char>, Seq<char>>
    decreases controls.len(),
{
    if controls.len() == 0 {
        Map::empty()
    } else {
        let rest = field_values(controls.drop_last());
        match controls.last().value() {
            Some(pair) => rest.insert(pair.0, pair.1),
            None => rest,
        }
    }
}

/// Replacing one control replaces its model and no other.
pub proof fn lemma_models_update(controls: Seq<Control>, at: int, control: Control)
    requires
        0 <= at < controls.len(),
    ensures
        models(controls.update(at, control)) == models(controls).update(at, control@),
{
    assert(models(controls.update(at, control)) =~= models(controls).update(at, control@));
}

/// Every one of the controls is in order.
pub open spec fn all_wf(controls: Seq<Control>) -> bool {
    forall|i: int| 0 <= i < controls.len() ==> (#[trigger] controls[i]).wf()
}

/// Controls that are in order are in order as mathematics.
pub proof fn lemma_models_wf(controls: Seq<Control>)
    requires
        all_wf(controls),
    ensures
        forall|i: int| 0 <= i < controls.len() ==> (#[trigger] models(controls)[i]).wf(),
{
    assert forall|i: int| 0 <= i < controls.len() implies (#[trigger] models(controls)[i]).wf() by {
        assert(controls[i].wf());
        match controls[i] {
            Control::TextField(f) => {
                f.lemma_wf();
            },
            Control::Button(_) => {},
        }
    }
}

/// Two controls of the same kind; if they are buttons, in the same place
/// among the buttons.
pub open spec fn akin(one: ControlModel, other: ControlModel) -> bool {
    match (one, other) {
        (ControlModel::TextField(_), ControlModel::TextField(_)) => true,
        (ControlModel::Button(a), ControlModel::Button(b)) => a.index == b.index,
        _ => false,
    }
}

/// The frames that write the controls, one after the other.
pub open spec fn frames(controls: Seq<ControlModel>) -> Seq<DrawOp>
    decreases controls.len(),
{
    if controls.len() == 0 {
        Seq::empty()
    } else {
        frames(controls.drop_last()) + controls.last().frame()
    }
}

/// The controls after each of them lost the focus.
pub open spec fn all_unfocused(controls: Seq<ControlModel>) -> Seq<ControlModel> {
    Seq::new(controls.len(), |i: int| controls[i].unfocused())
}

/// The frames that take the mark of the focus from the controls, one after
/// the other.
pub open spec fn unfocus_frames(controls: Seq<ControlModel>) -> Seq<DrawOp>
    decreases controls.len(),
{
    if controls.len() == 0 {
        Seq::empty()
    } else {
        unfocus_frames(controls.drop_last()) + controls.last().unfocus_frame()
    }
}

/// The controls in the colours of the theme.
pub open spec fn all_themed(controls: Seq<ControlModel>, colors: DialogColors) -> Seq<ControlModel> {
    Seq::new(controls.len(), |i: int| controls[i].themed(colors))
}

/// The frame that writes all the controls.
pub fn draw_all(controls: &Vec<Control>) -> (ops: Vec<DrawOp>)
    requires
        all_wf(controls@),
    ensures
        ops@ == frames(models(controls@)),
{
    let ghost all = models(controls@);
    let mut ops: Vec<DrawOp> = Vec::new();
    let mut i: usize = 0;
    while i < controls.len()
        invariant
            i <= controls@.len(),
            all == models(controls@),
            all_wf(controls@),
            ops@ == frames(all.subrange(0, i as int)),
        decreases controls@.len() - i,
    {
        proof {
            assert(all.subrange(0, i + 1).drop_last() =~= all.subrange(0, i as int));
            assert(all.subrange(0, i + 1).last() == controls@[i as int]@);
            assert(controls@[i as int].wf());
        }
        let part = controls[i].draw();
        put_all(&mut ops, &part);
        i += 1;
    }
    proof {
        assert(all.subrange(0, i as int) =~= all);
    }
    ops
}

/// Takes the focus from every control and returns the frame that shows it.
pub fn unfocus_all(controls: &mut Vec<Control>) -> (ops: Vec<DrawOp>)
    requires
        all_wf(old(controls)@),
    ensures
        all_wf(final(controls)@),
        models(final(controls)@) == all_unfocused(models(old(controls)@)),
        ops@ == unfocus_frames(models(old(controls)@)),
{
    let ghost all = models(controls@);
    let mut ops: Vec<DrawOp> = Vec::new();
    let mut i: usize = 0;
    while i < controls.len()
        invariant
            i <= controls@.len(),
            controls@.len() == old(controls)@.len(),
            all == models(old(controls)@),
            all_wf(controls@),
            forall|j: int| 0 <= j < i ==> (#[trigger] controls@[j])@ == all[j].unfocused(),
            forall|j: int| i <= j < controls@.len() ==> #[trigger] controls@[j] == old(controls)@[j],
            ops@ == unfocus_frames(all.subrange(0, i as int)),
        decreases controls@.len() - i,
    {
        proof {
            assert(all.subrange(0, i + 1).drop_last() =~= all.subrange(0, i as int));
            assert(all.subrange(0, i + 1).last() == controls@[i as int]@);
            assert(controls@[i as int].wf());
        }
        let ghost before = controls@;
        let part = controls[i].hide_focus_indicator();
        put_all(&mut ops, &part);
        proof {
            assert forall|j: int| 0 <= j < controls@.len() implies (#[trigger] controls@[j]).wf() by {
                if j != i {
                    assert(before[j].wf());
                }
            }
        }
        i += 1;
    }
    proof {
        assert(all.subrange(0, i as int) =~= all);
        assert(models(controls@) =~= all_unfocused(all));
    }
    ops
}

/// Gives every control the colours that the theme has for its kind.
pub fn theme_all(controls: &mut Vec<Control>, colors: DialogColors)
    requires
        all_wf(old(controls)@),
    ensures
        all_wf(final(controls)@),
        models(final(controls)@) == all_themed(models(old(controls)@), colors),
{
    let ghost all = models(controls@);
    let mut i: usize = 0;
    while i < controls.len()
        invariant
            i <= controls@.len(),
            controls@.len() == old(controls)@.len(),
            all == models(old(controls)@),
            all_wf(controls@),
            forall|j: int| 0 <= j < i ==> (#[trigger] controls@[j])@ == all[j].themed(colors),
            forall|j: int| i <= j < controls@.len() ==> #[trigger] controls@[j] == old(controls)@[j],
        decreases controls@.len() - i,
    {
        proof {
            assert(controls@[i as int].wf());
        }
        let ghost before = controls@;
        controls[i].set_colors(colors);
        proof {
            assert forall|j: int| 0 <= j < controls@.len() implies (#[trigger] controls@[j]).wf() by {
                if j != i {
                    assert(before[j].wf());
                }
            }
        }
        i += 1;
    }
    proof {
        assert(models(controls@) =~= all_themed(all, colors));
    }
}

/// A control of a dialog: a text field or a button.
#[derive(Debug, Clone)]
pub enum Control {
    TextField(Field),
    Button(Button),
}

impl View for Control {
    type V = ControlModel;

    open spec fn view(&self) -> ControlModel {
        match self {
            Control::TextField(f) => ControlModel::TextField(f@),
            Control::Button(b) => ControlModel::Button(b@),
        }
    }
}

impl Control {
    /// A text field is in order; a button always is.
    pub open spec fn wf(&self) -> bool {
        match self {
            Control::TextField(f) => f.wf(),
            Control::Button(_) => true,
        }
    }

    /// The frame that writes the control.
    pub fn draw(&self) -> (ops: Vec<DrawOp>)
        requires
            self.wf(),
        ensures
            ops@ == self@.frame(),
    {
        match self {
            Control::TextField(f) => f.draw(),
            Control::Button(b) => b.draw(),
        }
    }

    /// Hands a key to the control and returns what it did to the dialog and
    /// the frame that shows the change.
    pub fn handle_input(&mut self, key: Key, mode: TextMode) -> (r: (
        DialogReturnValue,
        Vec<DrawOp>,
    ))
        requires
            old(self).wf(),
        ensures
            final(self).wf(),
            final(self)@ == old(self)@.after(key, mode),
            r.0.dialog_result == old(self)@.outcome(key),
            r.0.should_quit == old(self)@.outcome(key).is_some(),
            r.0.values.wf(),
            r.0.values@ == Map::<Seq<char>, Seq<char>>::empty(),
            r.1@ == old(self)@.key_frame(key, mode),
    {
        match self {
            Control::TextField(f) => f.handle_input(key, mode),
            Control::Button(b) => (b.handle_input(key, mode), Vec::new()),
        }
    }

    /// The frame that marks the control as the one that has the focus.
    pub fn show_focus_indicator(&self, mode: TextMode) -> (ops: Vec<DrawOp>)
        ensures
            ops@ == self@.focus_frame(),
    {
        match self {
            Control::TextField(f) => f.show_focus_indicator(mode),
            Control::Button(b) => b.show_focus_indicator(mode),
        }
    }

    /// Takes the focus from the control and returns the frame that shows it.
    pub fn hide_focus_indicator(&mut self) -> (ops: Vec<DrawOp>)
        requires
            old(self).wf(),
        ensures
            final(self).wf(),
            final(self)@ == old(self)@.unfocused(),
            ops@ == old(self)@.unfocus_frame(),
    {
        match self {
            Control::TextField(f) => f.hide_focus_indicator(),
            Control::Button(b) => b.hide_focus_indicator(),
        }
    }

    pub fn set_position(&mut self, position: Position)
        requires
            old(self).wf(),
        ensures
            final(self).wf(),
            final(self)@ == old(self)@.placed(position),
    {
        match self {
            Control::TextField(f) => f.set_position(position),
            Control::Button(b) => b.set_position(position),
        }
    }

    /// Sets the edit mode of the control's editor, if it has one.
    pub fn set_mode(&mut self, mode: TextMode)
        requires
            old(self).wf(),
        ensures
            final(self).wf(),
            final(self)@ == old(self)@.with_mode(mode),
    {
        match self {
            Control::TextField(f) => f.set_mode(mode),
            Control::Button(_) => {},
        }
    }

    pub fn set_colors(&mut self, colors: DialogColors)
        requires
            old(self).wf(),
        ensures
            final(self).wf(),
            final(self)@ == old(self)@.themed(colors),
    {
        match self {
            Control::TextField(f) => f.set_colors(colors.fields),
            Control::Button(b) => b.set_colors(colors.buttons),
        }
    }

    pub fn get_tab_index(&self) -> (r: Option<usize>)
        ensures
            r == self@.tab_index(),
    {
        match self {
            Control::TextField(f) => f.get_tab_index(),
            Control::Button(b) => b.get_tab_index(),
        }
    }

    /// The name and the value of a text field; nothing for a button.
    pub fn get_value(&self) -> (r: Option<(String, String)>)
        requires
            self.wf(),
        ensures
            r.is_some() == self@.value().is_some(),
            r.is_some() ==> r.unwrap().0@ == self@.value().unwrap().0 && r.unwrap().1@
                == self@.value().unwrap().1,
    {
        match self {
            Control::TextField(f) => f.get_value(),
            Control::Button(b) => b.get_value(),
        }
    }

    pub fn get_name(&self) -> (r: String)
        ensures
            r@ == self@.name(),
    {
        match self {
            Control::TextField(f) => f.get_name(),
            Control::Button(b) => b.get_name(),
        }
    }
}

/// What every control offers the dialog that holds it.
pub trait UIElement {
    /// The element as a control.
    spec fn as_control(&self) -> ControlModel;

    /// The element is in order.
    spec fn in_order(&self) -> bool;

    /// The frame that writes the element.
    fn draw(&self) -> (ops: Vec<DrawOp>)
        requires
            self.in_order(),
        ensures
            ops@ == self.as_control().frame(),
    ;

    /// Hands a key to the element and returns what it did to the dialog and
    /// the frame that shows the change.
    fn handle_input(&mut self, key: Key, mode: TextMode) -> (r: (DialogReturnValue, Vec<DrawOp>))
        requires
            old(self).in_order(),
        ensures
            final(self).in_order(),
            final(self).as_control() == old(self).as_control().after(key, mode),
            r.0.dialog_result == old(self).as_control().outcome(key),
            r.0.should_quit == old(self).as_control().outcome(key).is_some(),
            r.0.values.wf(),
            r.0.values@ == Map::<Seq<char>, Seq<char>>::empty(),
            r.1@ == old(self).as_control().key_frame(key, mode),
    ;

    /// The frame that marks the element as the one that has the focus.
    fn show_focus_indicator(&self, mode: TextMode) -> (ops: Vec<DrawOp>)
        ensures
            ops@ == self.as_control().focus_frame(),
    ;

    /// Takes the focus from the element and returns the frame that shows it.
    fn hide_focus_indicator(&mut self) -> (ops: Vec<DrawOp>)
        requires
            old(self).in_order(),
        ensures
            final(self).in_order(),
            final(self).as_control() == old(self).as_control().unfocused(),
            ops@ == old(self).as_control().unfocus_frame(),
    ;

    /// Puts the element at `position`.
    fn set_position(&mut self, position: Position)
        requires
            old(self).in_order(),
        ensures
            final(self).in_order(),
            final(self).as_control() == old(self).as_control().placed(position),
    ;

    fn get_tab_index(&self) -> (r: Option<usize>)
        ensures
            r == self.as_control().tab_index(),
    ;

    fn get_name(&self) -> (r: String)
        ensures
            r@ == self.as_control().name(),
    ;

    /// The name and the value of a text field; nothing for a button.
    fn get_value(&self) -> (r: Option<(String, String)>)
        requires
            self.in_order(),
        ensures
            r.is_some() == self.as_control().value().is_some(),
            r.is_some() ==> r.unwrap().0@ == self.as_control().value().unwrap().0 && r.unwrap().1@
                == self.as_control().value().unwrap().1,
    ;
}

impl UIElement for Control {
    open spec fn as_control(&self) -> ControlModel {
        self@
    }

    open spec fn in_order(&self) -> bool {
        self.wf()
    }

    fn draw(&self) -> (ops: Vec<DrawOp>) {
        Control::draw(self)
    }

    fn handle_input(&mut self, key: Key, mode: TextMode) -> (r: (DialogReturnValue, Vec<DrawOp>)) {
        Control::handle_input(self, key, mode)
    }

    fn show_focus_indicator(&self, mode: TextMode) -> (ops: Vec<DrawOp>) {
        Control::show_focus_indicator(self, mode)
    }

    fn hide_focus_indicator(&mut self) -> (ops: Vec<DrawOp>) {
        Control::hide_focus_indicator(self)
    }

    fn set_position(&mut self, position: Position) {
        Control::set_position(self, position)
    }

    fn get_tab_index(&self) -> (r: Option<usize>) {
        Control::get_tab_index(self)
    }

    fn get_name(&self) -> (r: String) {
        Control::get_name(self)
    }

    fn get_value(&self) -> (r: Option<(String, String)>) {
        Control::get_value(self)
    }
}

impl UIElement for Field {
    open spec fn as_control(&self) -> ControlModel {
        ControlModel::TextField(self@)
    }

    open spec fn in_order(&self) -> bool {
        self.wf()
    }

    fn draw(&self) -> (ops: Vec<DrawOp>) {
        Field::draw(self)
    }

    fn handle_input(&mut self, key: Key, mode: TextMode) -> (r: (DialogReturnValue, Vec<DrawOp>)) {
        Field::handle_input(self, key, mode)
    }

    fn show_focus_indicator(&self, mode: TextMode) -> (ops: Vec<DrawOp>) {
        Field::show_focus_indicator(self, mode)
    }

    fn hide_focus_indicator(&mut self) -> (ops: Vec<DrawOp>) {
        Field::hide_focus_indicator(self)
    }

    fn set_position(&mut self, position: Position) {
        Field::set_position(self, position)
    }

    fn get_tab_index(&self) -> (r: Option<usize>) {
        Field::get_tab_index(self)
    }

    fn get_name(&self) -> (r: String) {
        Field::get_name(self)
    }

    fn get_value(&self) -> (r: Option<(String, String)>) {
        Field::get_value(self)
    }
}

impl UIElement for Button {
    open spec fn as_control(&self) -> ControlModel {
        ControlModel::Button(self@)
    }

    open spec fn in_order(&self) -> bool {
        true
    }

    fn draw(&self) -> (ops: Vec<DrawOp>) {
        Button::draw(self)
    }

    fn handle_input(&mut self, key: Key, mode: TextMode) -> (r: (DialogReturnValue, Vec<DrawOp>)) {
        (Button::handle_input(self, key, mode), Vec::new())
    }

    fn show_focus_indicator(&self, mode: TextMode) -> (ops: Vec<DrawOp>) {
        Button::show_focus_indicator(self, mode)
    }

    fn hide_focus_indicator(&mut self) -> (ops: Vec<DrawOp>) {
        Button::hide_focus_indicator(self)
    }

    fn set_position(&mut self, position: Position) {
        Button::set_position(self, position)
    }

    fn get_tab_index(&self) -> (r: Option<usize>) {
        Button::get_tab_index(self)
    }

    fn get_name(&self) -> (r: String) {
        Button::get_name(self)
    }

    fn get_value(&self) -> (r: Option<(String, String)>) {
        Button::get_value(self)
    }
}

} // verus!
