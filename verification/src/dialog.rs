use vstd::prelude::*;
use crate::borders::{
    horizontal_glyph, joint_glyph, vertical_glyph, BorderChars, BorderStyle, Borders, Joint,
};
use crate::colors::DialogColors;
use crate::chrome::{
    border_frame, overlay_frame, put_border, put_overlay, put_split, put_title, split_frame,
    title_frame,
};
use crate::controls::{
    akin, all_unfocused, all_wf, draw_all, field_values, frames, lemma_models_update,
    all_themed, lemma_models_wf, models, theme_all, unfocus_all, unfocus_frames, Control,
    ControlModel,
};
use crate::focus::{
    find_tab, first_focus, forward, highest, highest_tab, lemma_forward_is_cyclic,
    lemma_highest, lemma_owner,
    lemma_tabs_update, lowest, lowest_tab, next_focus, owner, owns, previous_focus,
    tabbed_count, tabs_of,
};
use crate::form_data::FormData;
use crate::keys::{decode, Key};
use crate::layout::{
    calc_longest_label, calc_min_size, calc_origin, centered, longest_label, min_size,
    place_all, placed_all, position_of, slot_fits, DialogSpecs,
};
use crate::line_buffer::TextMode;
use crate::render::{put_all, DrawOp};
use crate::tab_order::{is_tab_order_of, lemma_sorted_members, sort_by_tab};
use crate::utils::{saturate, Position, Size};

verus! {

/// Why a dialog ended.
#[derive(Debug, Clone, Copy, PartialEq, Eq, Structural)]
pub enum DialogResult {
    Okay,
    Cancel,
    Abort,
    Retry,
    Ignore,
    Yes,
    No,
}

impl Default for DialogResult {
    fn default() -> (r: Self)
        ensures
            r == DialogResult::Okay,
    {
        DialogResult::Okay
    }
}

/// How many buttons a dialog has, and which of them a button is, counted
/// from the left.
#[derive(Debug, Clone, Copy, PartialEq, Eq, Structural)]
pub enum ButtonCount {
    One,
    Two,
    Three,
}

impl Default for ButtonCount {
    fn default() -> (r: Self)
        ensures
            r == ButtonCount::One,
    {
        ButtonCount::One
    }
}

/// What a key did to the dialog: whether it ended, why, and with which
/// values in its fields.
#[derive(Debug, Clone)]
pub struct DialogReturnValue {
    /// The caller is to stop delivering keys.
    pub should_quit: bool,
    pub dialog_result: Option<DialogResult>,
    /// The fields' values at the moment the dialog ended; empty before.
    pub values: FormData,
}

impl DialogReturnValue {
    /// The dialog goes on.
    pub open spec fn is_none(&self) -> bool {
        &&& !self.should_quit
        &&& self.dialog_result.is_none()
        &&& self.values@ == Map::<Seq<char>, Seq<char>>::empty()
        &&& self.values.wf()
    }
}

impl Default for DialogReturnValue {
    fn default() -> (r: Self)
        ensures
            r.is_none(),
    {
        DialogReturnValue { should_quit: false, dialog_result: None, values: FormData::default() }
    }
}

/// What a dialog is, as mathematics.
pub struct DialogModel {
    pub title: Seq<char>,
    pub controls: Seq<ControlModel>,
    pub margin: Position,
    /// The top-left corner; none before the dialog was laid out.
    pub position: Option<Position>,
    pub size: Option<Size>,
    pub screen_size: Option<Size>,
    pub overlay: bool,
    pub fill: bool,
    pub border_chars: BorderChars,
    pub is_visible: bool,
    /// The tab index that has the focus.
    pub focused: usize,
    pub button_count: Option<ButtonCount>,
    pub mode: TextMode,
    pub colors: DialogColors,
    pub submit_result: DialogResult,
    pub cancel_result: DialogResult,
}

/// The other edit mode.
pub open spec fn other_mode(mode: TextMode) -> TextMode {
    match mode {
        TextMode::Overtype => TextMode::Insert,
        TextMode::Insert => TextMode::Overtype,
    }
}

impl DialogModel {
    /// Every editor is in order, and every button has a place among the
    /// buttons that the dialog counts.
    pub open spec fn wf(self) -> bool {
        forall|i: int|
            0 <= i < self.controls.len() ==> {
                &&& (#[trigger] self.controls[i]).wf()
                &&& match self.controls[i] {
                    ControlModel::Button(b) => self.button_count.is_some() && slot_fits(
                        b.index,
                        self.button_count.unwrap(),
                    ),
                    ControlModel::TextField(_) => true,
                }
            }
    }

    pub open spec fn tabs(self) -> Seq<Option<usize>> {
        tabs_of(self.controls)
    }

    /// The place of the control that has the focus: the first one with the
    /// focused tab index.
    pub open spec fn focused_control(self) -> Option<int> {
        owner(self.tabs(), self.focused)
    }

    /// The dialog with control `at` replaced.
    pub open spec fn with_control(self, at: int, control: ControlModel) -> DialogModel {
        DialogModel { controls: self.controls.update(at, control), ..self }
    }

    /// The dialog after the focused control lost the mark of the focus.
    pub open spec fn defocused(self) -> DialogModel {
        match self.focused_control() {
            Some(at) => self.with_control(at, self.controls[at].unfocused()),
            None => self,
        }
    }

    /// The frame that takes the mark of the focus from the focused control.
    pub open spec fn defocus_frame(self) -> Seq<DrawOp> {
        match self.focused_control() {
            Some(at) => self.controls[at].unfocus_frame() + seq![DrawOp::Flush],
            None => Seq::empty(),
        }
    }

    /// The frame that marks the focused control.
    pub open spec fn focus_frame(self) -> Seq<DrawOp> {
        match self.focused_control() {
            Some(at) => self.controls[at].focus_frame() + seq![DrawOp::Flush],
            None => Seq::empty(),
        }
    }

    /// The dialog after the focus went to the tab index `to`.
    pub open spec fn focus_moved(self, to: usize) -> DialogModel {
        DialogModel { focused: to, ..self.defocused() }
    }

    /// The frame that shows the focus going to the tab index `to`.
    pub open spec fn focus_move_frame(self, to: usize) -> Seq<DrawOp> {
        self.defocus_frame() + self.focus_moved(to).focus_frame()
    }

    /// The dialog with the focus where a control has it: it stays if a
    /// control has the focused tab index, and else goes to the lowest.
    pub open spec fn focus_settled(self) -> DialogModel {
        if self.focused_control().is_some() {
            self
        } else {
            DialogModel { focused: first_focus(self.tabs()), ..self }
        }
    }

    /// The dialog after the edit mode was switched: the focused control
    /// takes the new mode over.
    pub open spec fn toggled(self) -> DialogModel {
        let mode = other_mode(self.mode);
        match self.focused_control() {
            Some(at) => DialogModel { mode, ..self.with_control(at, self.controls[at].with_mode(mode)) },
            None => DialogModel { mode, ..self },
        }
    }

    /// The dialog after a key went to the focused control.
    pub open spec fn routed(self, key: Key) -> DialogModel {
        match self.focused_control() {
            Some(at) => self.with_control(at, self.controls[at].after(key, self.mode)),
            None => self,
        }
    }

    /// The dialog after one key. Enter and Escape end it and change nothing;
    /// Tab and Back-tab move the focus; Insert switches the edit mode; any
    /// other key goes to the focused control.
    pub open spec fn after(self, key: Key) -> DialogModel {
        match key {
            Key::Enter => self,
            Key::Esc => self,
            Key::Tab => self.focus_moved(next_focus(self.tabs(), self.focused)),
            Key::BackTab => self.focus_moved(previous_focus(self.tabs(), self.focused)),
            Key::Insert => self.toggled(),
            _ => self.routed(key),
        }
    }

    /// The outcome with which a key ends the dialog, if it does: Enter ends
    /// it with the outcome set for submitting, Escape with the one set for
    /// cancelling, and a key that presses the focused button with that
    /// button's own.
    pub open spec fn outcome(self, key: Key) -> Option<DialogResult> {
        match key {
            Key::Enter => Some(self.submit_result),
            Key::Esc => Some(self.cancel_result),
            Key::Tab => None,
            Key::BackTab => None,
            Key::Insert => None,
            _ => match self.focused_control() {
                Some(at) => self.controls[at].outcome(key),
                None => None,
            },
        }
    }

    /// The frame with which the dialog answers a key.
    pub open spec fn key_frame(self, key: Key) -> Seq<DrawOp> {
        match key {
            Key::Enter => Seq::empty(),
            Key::Esc => Seq::empty(),
            Key::Tab => self.focus_move_frame(next_focus(self.tabs(), self.focused)),
            Key::BackTab => self.focus_move_frame(previous_focus(self.tabs(), self.focused)),
            Key::Insert => match self.focused_control() {
                Some(at) => self.toggled().controls[at].frame(),
                None => Seq::empty(),
            },
            _ => match self.focused_control() {
                Some(at) => self.controls[at].key_frame(key, self.mode),
                None => Seq::empty(),
            },
        }
    }

    /// What the text fields hold, by name.
    pub open spec fn values(self) -> Map<Seq<char>, Seq<char>> {
        field_values(self.controls)
    }

    /// What the placing of the controls goes by; nothing before the dialog
    /// has a size and a place.
    pub open spec fn specs(self) -> Option<DialogSpecs> {
        match (self.size, self.position) {
            (Some(size), Some(position)) => Some(
                DialogSpecs {
                    position,
                    size,
                    margin: self.margin,
                    max_name_len: saturate(longest_label(self.controls)),
                    button_count: self.button_count,
                },
            ),
            _ => None,
        }
    }

    /// The dialog with every control at its place, once the dialog has a
    /// size and a place.
    pub open spec fn positioned(self) -> DialogModel {
        match self.specs() {
            Some(specs) => DialogModel { controls: placed_all(self.controls, specs), ..self },
            None => self,
        }
    }

    /// The dialog in the middle of its screen with every control at its
    /// place, once the dialog has a size and knows the screen's.
    pub open spec fn centered(self) -> DialogModel {
        match (self.size, self.screen_size) {
            (Some(size), Some(screen)) => (DialogModel {
                position: Some(centered(screen, size)),
                ..self
            }).positioned(),
            _ => self,
        }
    }

    /// The dialog laid out for a screen of the size `screen`: as large as
    /// its controls need, in the middle of the screen, every control at its
    /// place.
    pub open spec fn resized(self, screen: Size) -> DialogModel {
        (DialogModel {
            size: Some(min_size(self.controls, self.margin)),
            screen_size: Some(screen),
            ..self
        }).centered()
    }

    /// The frame that draws the box of the dialog and what is in it: the
    /// border, the title, the line above the buttons and the controls.
    /// Nothing before the dialog has a size and a place.
    pub open spec fn box_frame(self) -> Seq<DrawOp> {
        match (self.size, self.position) {
            (Some(size), Some(position)) => border_frame(
                position,
                size,
                self.border_chars,
                self.colors,
                self.fill,
            ) + title_frame(position, self.title) + split_frame(
                position,
                size,
                self.border_chars,
                self.colors,
            ) + frames(self.controls),
            _ => Seq::empty(),
        }
    }

    /// The dialog after it was drawn: no control is marked but the one that
    /// has the focus, and every text field has its cursor at the start.
    pub open spec fn drawn(self) -> DialogModel {
        (DialogModel { controls: all_unfocused(self.controls), ..self }).focus_settled()
    }

    /// The frame that draws the whole dialog: the overlay, the box and what
    /// is in it, every control without the mark of the focus, then the mark
    /// on the control that has the focus, and the cursor in the shape of the
    /// dialog's edit mode.
    pub open spec fn draw_frame(self) -> Seq<DrawOp> {
        overlay_frame(self.colors, self.overlay) + self.box_frame() + unfocus_frames(
            self.controls,
        ) + self.drawn().focus_frame() + seq![DrawOp::CursorStyle(self.mode), DrawOp::Flush]
    }

    /// The dialog after it was shown on a screen of the size `screen`.
    pub open spec fn shown(self, screen: Size) -> DialogModel {
        (DialogModel { is_visible: true, ..self.resized(screen) }).drawn()
    }

    /// The frame that takes the dialog from the screen.
    pub open spec fn hide_frame() -> Seq<DrawOp> {
        seq![DrawOp::ClearAll, DrawOp::Flush]
    }
}

impl DialogModel {
    /// The dialog after Tab was pressed `times` times.
    pub open spec fn tabbed(self, times: nat) -> DialogModel
        decreases times,
    {
        if times == 0 {
            self
        } else {
            self.tabbed((times - 1) as nat).after(Key::Tab)
        }
    }
}

/// Tab moves the focus forward by one and leaves every tab index as it was.
pub proof fn lemma_tab_moves_forward(dialog: DialogModel)
    ensures
        dialog.after(Key::Tab).tabs() == dialog.tabs(),
        dialog.after(Key::Tab).focused == next_focus(dialog.tabs(), dialog.focused),
{
    lemma_owner(dialog.tabs(), dialog.focused);
    match dialog.focused_control() {
        Some(at) => {
            lemma_tabs_update(dialog.controls, at, dialog.controls[at].unfocused());
        },
        None => {},
    }
}

/// Pressing Tab `times` times moves the focus forward `times` times.
pub proof fn lemma_tabbed(dialog: DialogModel, times: nat)
    ensures
        dialog.tabbed(times).tabs() == dialog.tabs(),
        dialog.tabbed(times).focused == forward(dialog.tabs(), dialog.focused, times),
    decreases times,
{
    if times > 0 {
        lemma_tabbed(dialog, (times - 1) as nat);
        lemma_tab_moves_forward(dialog.tabbed((times - 1) as nat));
    }
}

/// Pressing Tab once for each control that has a tab index brings the focus
/// back to the control on which it started, where the tab indexes are the
/// numbers from the lowest on without a gap, each held by one control, and
/// the focus starts on one of them.
pub proof fn lemma_tab_is_cyclic(dialog: DialogModel)
    requires
        lowest(dialog.tabs()).is_some(),
        forall|tab: int|
            owns(dialog.tabs(), tab) <==> lowest(dialog.tabs()).unwrap() <= tab < lowest(
                dialog.tabs(),
            ).unwrap() + tabbed_count(dialog.tabs()),
        owns(dialog.tabs(), dialog.focused as int),
    ensures
        dialog.tabbed(tabbed_count(dialog.tabs())).focused == dialog.focused,
        dialog.tabbed(tabbed_count(dialog.tabs())).focused_control() == dialog.focused_control(),
{
    lemma_tabbed(dialog, tabbed_count(dialog.tabs()));
    lemma_forward_is_cyclic(dialog.tabs(), dialog.focused);
}

/// A dialog stays in order when its controls are replaced one for one by
/// controls in order of the same kind.
pub proof fn lemma_akin_wf(before: DialogModel, after: DialogModel)
    requires
        before.wf(),
        after.controls.len() == before.controls.len(),
        after.button_count == before.button_count,
        forall|i: int|
            0 <= i < after.controls.len() ==> (#[trigger] after.controls[i]).wf() && akin(
                before.controls[i],
                after.controls[i],
            ),
    ensures
        after.wf(),
{
    assert forall|i: int| 0 <= i < after.controls.len() implies {
        &&& (#[trigger] after.controls[i]).wf()
        &&& match after.controls[i] {
            ControlModel::Button(b) => after.button_count.is_some() && slot_fits(
                b.index,
                after.button_count.unwrap(),
            ),
            ControlModel::TextField(_) => true,
        }
    } by {
        assert(before.controls[i].wf());
    }
}

/// A modal dialog: a framed box with text fields and buttons.
#[derive(Debug)]
pub struct Dialog {
    position: Option<Position>,
    size: Option<Size>,
    screen_size: Option<Size>,
    title: String,
    controls: Vec<Control>,
    overlay: bool,
    fill: bool,
    border_chars: BorderChars,
    margin: Position,
    is_visible: bool,
    focused: usize,
    button_count: Option<ButtonCount>,
    mode: TextMode,
    colors: DialogColors,
    submit_result: DialogResult,
    cancel_result: DialogResult,
}

impl View for Dialog {
    type V = DialogModel;

    closed spec fn view(&self) -> DialogModel {
        DialogModel {
            title: self.title@,
            controls: models(self.controls@),
            margin: self.margin,
            position: self.position,
            size: self.size,
            screen_size: self.screen_size,
            overlay: self.overlay,
            fill: self.fill,
            border_chars: self.border_chars,
            is_visible: self.is_visible,
            focused: self.focused,
            button_count: self.button_count,
            mode: self.mode,
            colors: self.colors,
            submit_result: self.submit_result,
            cancel_result: self.cancel_result,
        }
    }
}

impl Dialog {
    /// Every control is in order, and every button has a place among the
    /// buttons that the dialog counts.
    pub closed spec fn wf(&self) -> bool {
        &&& all_wf(self.controls@)
        &&& self@.wf()
    }

    /// The place of the control that has the focus.
    pub fn get_focused_control(&self) -> (r: Option<usize>)
        ensures
            match r {
                Some(at) => self@.focused_control() == Some(at as int) && at < self@.controls.len(),
                None => self@.focused_control().is_none(),
            },
    {
        proof {
            lemma_owner(self@.tabs(), self.focused);
        }
        find_tab(&self.controls, self.focused)
    }

    /// A dialog in which one control was replaced by a control in order of
    /// the same kind is in order.
    proof fn lemma_replaced(&self, before: &Dialog, at: int)
        requires
            0 <= at < before.controls@.len(),
            self.controls@ == before.controls@.update(at, self.controls@[at]),
            before.wf(),
            self.controls@[at].wf(),
            self.controls@[at]@ is Button ==> self.controls@[at]@ == before.controls@[at]@,
            self.controls@[at]@ is TextField ==> before.controls@[at]@ is TextField,
            self.button_count == before.button_count,
        ensures
            models(self.controls@) == models(before.controls@).update(at, self.controls@[at]@),
            all_wf(self.controls@),
            self.wf(),
    {
        lemma_models_update(before.controls@, at, self.controls@[at]);
        assert forall|i: int| 0 <= i < self.controls@.len() implies (#[trigger] self.controls@[i]).wf() by {
            if i != at {
                assert(before.controls@[i].wf());
            }
        }
        assert forall|i: int| 0 <= i < self@.controls.len() implies {
            &&& (#[trigger] self@.controls[i]).wf()
            &&& match self@.controls[i] {
                ControlModel::Button(b) => self@.button_count.is_some() && slot_fits(
                    b.index,
                    self@.button_count.unwrap(),
                ),
                ControlModel::TextField(_) => true,
            }
        } by {
            assert(before@.controls[i].wf());
            if i == at {
                match self.controls@[at] {
                    Control::TextField(f) => {
                        f.lemma_wf();
                    },
                    Control::Button(_) => {},
                }
            }
        }
    }

    /// Takes the mark of the focus from the focused control.
    fn defocus(&mut self) -> (ops: Vec<DrawOp>)
        requires
            old(self).wf(),
        ensures
            final(self).wf(),
            final(self)@ == old(self)@.defocused(),
            ops@ == old(self)@.defocus_frame(),
            final(self)@.tabs() == old(self)@.tabs(),
    {
        match self.get_focused_control() {
            Some(at) => {
                let mut ops = self.controls[at].hide_focus_indicator();
                ops.push(DrawOp::Flush);
                proof {
                    self.lemma_replaced(old(self), at as int);
                    lemma_tabs_update(old(self)@.controls, at as int, self.controls@[at as int]@);
                }
                ops
            },
            None => Vec::new(),
        }
    }

    /// The frame that marks the focused control.
    fn mark_focus(&self) -> (ops: Vec<DrawOp>)
        ensures
            ops@ == self@.focus_frame(),
    {
        match self.get_focused_control() {
            Some(at) => {
                let mut ops = self.controls[at].show_focus_indicator(self.mode);
                ops.push(DrawOp::Flush);
                ops
            },
            None => Vec::new(),
        }
    }

    /// Moves the focus to the tab index `to`.
    fn move_focus(&mut self, to: usize) -> (ops: Vec<DrawOp>)
        requires
            old(self).wf(),
        ensures
            final(self).wf(),
            final(self)@ == old(self)@.focus_moved(to),
            ops@ == old(self)@.focus_move_frame(to),
    {
        let mut ops = self.defocus();
        self.focused = to;
        let mark = self.mark_focus();
        put_all(&mut ops, &mark);
        ops
    }

    /// Puts the focus where a control has it, and returns the frame that
    /// marks that control.
    pub fn set_focus(&mut self) -> (ops: Vec<DrawOp>)
        requires
            old(self).wf(),
        ensures
            final(self).wf(),
            final(self)@ == old(self)@.focus_settled(),
            ops@ == final(self)@.focus_frame(),
    {
        if self.get_focused_control().is_none() {
            self.focused = match lowest_tab(&self.controls) {
                Some(low) => low,
                None => 0,
            };
        }
        self.mark_focus()
    }

    /// Gives the focus to the control with the highest tab index, if any
    /// control has one, and returns the frame that marks it.
    pub fn focus_last(&mut self) -> (ops: Vec<DrawOp>)
        requires
            old(self).wf(),
        ensures
            final(self).wf(),
            final(self)@ == (DialogModel {
                focused: match highest(old(self)@.tabs()) {
                    Some(high) => high,
                    None => old(self)@.focused,
                },
                ..old(self)@
            }),
            ops@ == match highest(old(self)@.tabs()) {
                Some(high) => final(self)@.controls[owner(old(self)@.tabs(), high).unwrap()].focus_frame(),
                None => Seq::empty(),
            },
    {
        match highest_tab(&self.controls) {
            Some(high) => {
                self.focused = high;
                proof {
                    lemma_highest(self@.tabs());
                    lemma_owner(self@.tabs(), high);
                }
                match self.get_focused_control() {
                    Some(at) => self.controls[at].show_focus_indicator(self.mode),
                    None => Vec::new(),
                }
            },
            None => Vec::new(),
        }
    }

    /// Moves the focus forward: to the next tab index if a control has it,
    /// else round to the lowest.
    pub fn focus_next(&mut self) -> (ops: Vec<DrawOp>)
        requires
            old(self).wf(),
        ensures
            final(self).wf(),
            final(self)@ == old(self)@.after(Key::Tab),
            ops@ == old(self)@.key_frame(Key::Tab),
    {
        let to: usize = self.next_tab();
        self.move_focus(to)
    }

    /// Moves the focus backward: from the lowest tab index round to the
    /// highest, else one down.
    pub fn focus_previous(&mut self) -> (ops: Vec<DrawOp>)
        requires
            old(self).wf(),
        ensures
            final(self).wf(),
            final(self)@ == old(self)@.after(Key::BackTab),
            ops@ == old(self)@.key_frame(Key::BackTab),
    {
        let to: usize = self.previous_tab();
        self.move_focus(to)
    }

    fn next_tab(&self) -> (to: usize)
        ensures
            to == next_focus(self@.tabs(), self@.focused),
    {
        proof {
            if self.focused < usize::MAX {
                lemma_owner(self@.tabs(), (self.focused + 1) as usize);
            }
        }
        if self.focused < usize::MAX && find_tab(&self.controls, self.focused + 1).is_some() {
            self.focused + 1
        } else {
            match lowest_tab(&self.controls) {
                Some(low) => low,
                None => 0,
            }
        }
    }

    fn previous_tab(&self) -> (to: usize)
        ensures
            to == previous_focus(self@.tabs(), self@.focused),
    {
        proof {
            lemma_highest(self@.tabs());
        }
        match lowest_tab(&self.controls) {
            Some(low) => if self.focused <= low {
                match highest_tab(&self.controls) {
                    Some(high) => high,
                    None => low,
                }
            } else {
                self.focused - 1
            },
            None => 0,
        }
    }

    /// Switches between inserting and overtyping.
    fn toggle_input(&mut self)
        requires
            old(self).wf(),
        ensures
            final(self).wf(),
            final(self)@ == old(self)@.toggled(),
    {
        self.mode =
        match self.mode {
            TextMode::Overtype => TextMode::Insert,
            TextMode::Insert => TextMode::Overtype,
        };
        match self.get_focused_control() {
            Some(at) => {
                self.controls[at].set_mode(self.mode);
                proof {
                    self.lemma_replaced(old(self), at as int);
                }
            },
            None => {},
        }
    }

    /// The frame that writes the focused control again.
    fn redraw_focused_control(&self) -> (ops: Vec<DrawOp>)
        requires
            self.wf(),
        ensures
            ops@ == match self@.focused_control() {
                Some(at) => self@.controls[at].frame(),
                None => Seq::empty(),
            },
    {
        match self.get_focused_control() {
            Some(at) => self.controls[at].draw(),
            None => Vec::new(),
        }
    }

    /// A snapshot of what the text fields hold, by name.
    pub fn get_data(&self) -> (data: FormData)
        requires
            self.wf(),
        ensures
            data.wf(),
            data@ == self@.values(),
    {
        let ghost all = models(self.controls@);
        let mut data = FormData::default();
        let mut i: usize = 0;
        while i < self.controls.len()
            invariant
                i <= self.controls@.len(),
                all == models(self.controls@),
                all_wf(self.controls@),
                data.wf(),
                data@ == field_values(all.subrange(0, i as int)),
            decreases self.controls@.len() - i,
        {
            proof {
                assert(all.subrange(0, i + 1).drop_last() =~= all.subrange(0, i as int));
                assert(all.subrange(0, i + 1).last() == self.controls@[i as int]@);
                assert(self.controls@[i as int].wf());
            }
            match self.controls[i].get_value() {
                Some(pair) => {
                    data.insert(pair.0, pair.1);
                },
                None => {},
            }
            i += 1;
        }
        proof {
            assert(all.subrange(0, i as int) =~= all);
        }
        data
    }

    /// The width of the longest label among the text fields.
    pub fn max_name_len(&self) -> (r: usize)
        ensures
            r == longest_label(self@.controls),
    {
        calc_longest_label(&self.controls)
    }

    fn get_dialog_specs(&self) -> (r: Option<DialogSpecs>)
        ensures
            r == self@.specs(),
    {
        match (self.size, self.position) {
            (Some(size), Some(position)) => Some(
                DialogSpecs {
                    position,
                    size,
                    margin: self.margin,
                    max_name_len: self.max_name_len(),
                    button_count: self.button_count,
                },
            ),
            _ => None,
        }
    }

    fn calc_size(&mut self)
        requires
            old(self).wf(),
        ensures
            final(self).wf(),
            final(self)@ == (DialogModel {
                size: Some(min_size(old(self)@.controls, old(self)@.margin)),
                ..old(self)@
            }),
    {
        self.size = Some(calc_min_size(&self.controls, self.margin));
    }

    fn calc_screen_size(&mut self, screen: Size)
        requires
            old(self).wf(),
        ensures
            final(self).wf(),
            final(self)@ == (DialogModel { screen_size: Some(screen), ..old(self)@ }),
    {
        self.screen_size = Some(screen);
    }

    /// Puts every control at its place, once the dialog has a size and a
    /// place.
    fn set_control_positions(&mut self)
        requires
            old(self).wf(),
        ensures
            final(self).wf(),
            final(self)@ == old(self)@.positioned(),
    {
        match self.get_dialog_specs() {
            Some(specs) => {
                place_all(&mut self.controls, &specs);
                proof {
                    lemma_models_wf(self.controls@);
                    assert forall|i: int| 0 <= i < self@.controls.len() implies (
                    #[trigger] self@.controls[i]).wf() && akin(
                        old(self)@.controls[i],
                        self@.controls[i],
                    ) by {
                        assert(self@.controls[i] == old(self)@.controls[i].placed(
                            position_of(old(self)@.controls[i], specs),
                        ));
                    }
                    lemma_akin_wf(old(self)@, self@);
                }
            },
            None => {},
        }
    }

    /// Puts the dialog in the middle of its screen and every control at its
    /// place, once the dialog has a size and knows the screen's.
    pub fn calc_pos(&mut self)
        requires
            old(self).wf(),
        ensures
            final(self).wf(),
            final(self)@ == old(self)@.centered(),
    {
        match (self.size, self.screen_size) {
            (Some(size), Some(screen)) => {
                self.position = Some(calc_origin(screen, size));
                self.set_control_positions();
            },
            _ => {},
        }
    }

    /// Lays the dialog out for a screen of the size `screen`.
    pub fn resize(&mut self, screen: Size)
        requires
            old(self).wf(),
        ensures
            final(self).wf(),
            final(self)@ == old(self)@.resized(screen),
    {
        self.calc_size();
        self.calc_screen_size(screen);
        self.calc_pos();
    }

    fn draw_overlay(&self) -> (ops: Vec<DrawOp>)
        ensures
            ops@ == overlay_frame(self@.colors, self@.overlay),
    {
        let mut ops: Vec<DrawOp> = Vec::new();
        put_overlay(&mut ops, self.colors, self.overlay);
        ops
    }

    fn draw_border(&self) -> (ops: Vec<DrawOp>)
        ensures
            ops@ == match (self@.size, self@.position) {
                (Some(size), Some(position)) => border_frame(
                    position,
                    size,
                    self@.border_chars,
                    self@.colors,
                    self@.fill,
                ),
                _ => Seq::empty(),
            },
    {
        let mut ops: Vec<DrawOp> = Vec::new();
        match (self.size, self.position) {
            (Some(size), Some(position)) => {
                put_border(&mut ops, position, size, self.border_chars, self.colors, self.fill);
            },
            _ => {},
        }
        ops
    }

    fn draw_title(&self) -> (ops: Vec<DrawOp>)
        ensures
            ops@ == match (self@.size, self@.position) {
                (Some(size), Some(position)) => title_frame(position, self@.title),
                _ => Seq::empty(),
            },
    {
        let mut ops: Vec<DrawOp> = Vec::new();
        match (self.size, self.position) {
            (Some(_), Some(position)) => {
                put_title(&mut ops, position, self.title.as_str());
            },
            _ => {},
        }
        ops
    }

    fn draw_split(&self) -> (ops: Vec<DrawOp>)
        ensures
            ops@ == match (self@.size, self@.position) {
                (Some(size), Some(position)) => split_frame(
                    position,
                    size,
                    self@.border_chars,
                    self@.colors,
                ),
                _ => Seq::empty(),
            },
    {
        let mut ops: Vec<DrawOp> = Vec::new();
        match (self.size, self.position) {
            (Some(size), Some(position)) => {
                put_split(&mut ops, position, size, self.border_chars, self.colors);
            },
            _ => {},
        }
        ops
    }

    fn draw_controls(&self) -> (ops: Vec<DrawOp>)
        requires
            self.wf(),
        ensures
            ops@ == match (self@.size, self@.position) {
                (Some(size), Some(position)) => frames(self@.controls),
                _ => Seq::empty(),
            },
    {
        match (self.size, self.position) {
            (Some(_), Some(_)) => draw_all(&self.controls),
            _ => Vec::new(),
        }
    }

    /// Takes the mark of the focus from every control.
    fn hide_focus(&mut self) -> (ops: Vec<DrawOp>)
        requires
            old(self).wf(),
        ensures
            final(self).wf(),
            final(self)@ == (DialogModel {
                controls: all_unfocused(old(self)@.controls),
                ..old(self)@
            }),
            ops@ == unfocus_frames(old(self)@.controls),
    {
        let ops = unfocus_all(&mut self.controls);
        proof {
            lemma_models_wf(self.controls@);
            assert forall|i: int| 0 <= i < self@.controls.len() implies (
            #[trigger] self@.controls[i]).wf() && akin(
                old(self)@.controls[i],
                self@.controls[i],
            ) by {
                assert(self@.controls[i] == old(self)@.controls[i].unfocused());
            }
            lemma_akin_wf(old(self)@, self@);
        }
        ops
    }

    /// Draws the whole dialog. This takes the mark of the focus from every
    /// control, which puts the cursor of every text field at the start, and
    /// then marks the control that has the focus.
    pub fn draw(&mut self) -> (ops: Vec<DrawOp>)
        requires
            old(self).wf(),
        ensures
            final(self).wf(),
            final(self)@ == old(self)@.drawn(),
            ops@ == old(self)@.draw_frame(),
    {
        let mut ops = self.draw_overlay();
        let border = self.draw_border();
        put_all(&mut ops, &border);
        let title = self.draw_title();
        put_all(&mut ops, &title);
        let split = self.draw_split();
        put_all(&mut ops, &split);
        let controls = self.draw_controls();
        put_all(&mut ops, &controls);
        assert(ops@ =~= overlay_frame(self@.colors, self@.overlay) + self@.box_frame());
        let hidden = self.hide_focus();
        put_all(&mut ops, &hidden);
        let focus = self.set_focus();
        put_all(&mut ops, &focus);
        ops.push(DrawOp::CursorStyle(self.mode));
        ops.push(DrawOp::Flush);
        assert(ops@ =~= old(self)@.draw_frame());
        ops
    }

    /// Lays the dialog out for a screen of the size `screen`, makes it
    /// visible and draws it.
    pub fn show(&mut self, screen: Size) -> (ops: Vec<DrawOp>)
        requires
            old(self).wf(),
        ensures
            final(self).wf(),
            final(self)@ == old(self)@.shown(screen),
            final(self)@.is_visible,
            ops@ == (DialogModel { is_visible: true, ..old(self)@.resized(screen) }).draw_frame(),
    {
        self.resize(screen);
        self.is_visible = true;
        self.draw()
    }

    /// Makes the dialog invisible and clears the screen.
    pub fn hide_dialog(&mut self) -> (ops: Vec<DrawOp>)
        requires
            old(self).wf(),
        ensures
            final(self).wf(),
            final(self)@ == (DialogModel { is_visible: false, ..old(self)@ }),
            ops@ == DialogModel::hide_frame(),
    {
        self.is_visible = false;
        let mut ops: Vec<DrawOp> = Vec::new();
        ops.push(DrawOp::ClearAll);
        ops.push(DrawOp::Flush);
        ops
    }

    pub fn is_visible(&self) -> (r: bool)
        ensures
            r == self@.is_visible,
    {
        self.is_visible
    }

    /// The tab index that has the focus.
    pub fn focused(&self) -> (r: usize)
        ensures
            r == self@.focused,
    {
        self.focused
    }

    pub fn mode(&self) -> (r: TextMode)
        ensures
            r == self@.mode,
    {
        self.mode
    }

    /// The size of the dialog; none before it was laid out.
    pub fn size(&self) -> (r: Option<Size>)
        ensures
            r == self@.size,
    {
        self.size
    }

    /// The top-left corner of the dialog; none before it was laid out.
    pub fn position(&self) -> (r: Option<Position>)
        ensures
            r == self@.position,
    {
        self.position
    }

    /// The controls, in the order of their tab indexes.
    pub fn controls(&self) -> (r: &Vec<Control>)
        ensures
            models(r@) == self@.controls,
            self.wf() ==> all_wf(r@),
    {
        &self.controls
    }

    /// Applies one key to the dialog. Returns whether the dialog ended, why
    /// and with which values, and the frame that shows what changed.
    pub fn handle_key(&mut self, key: Key) -> (r: (DialogReturnValue, Vec<DrawOp>))
        requires
            old(self).wf(),
        ensures
            final(self).wf(),
            final(self)@ == old(self)@.after(key),
            r.0.dialog_result == old(self)@.outcome(key),
            r.0.should_quit == old(self)@.outcome(key).is_some(),
            r.0.values.wf(),
            r.0.values@ == if old(self)@.outcome(key).is_some() {
                final(self)@.values()
            } else {
                Map::<Seq<char>, Seq<char>>::empty()
            },
            r.1@ == old(self)@.key_frame(key),
    {
        match key {
            Key::Enter => (
                DialogReturnValue {
                    should_quit: true,
                    dialog_result: Some(self.submit_result),
                    values: self.get_data(),
                },
                Vec::new(),
            ),
            Key::Esc => (
                DialogReturnValue {
                    should_quit: true,
                    dialog_result: Some(self.cancel_result),
                    values: self.get_data(),
                },
                Vec::new(),
            ),
            Key::Tab => {
                let ops = self.focus_next();
                (DialogReturnValue::default(), ops)
            },
            Key::BackTab => {
                let ops = self.focus_previous();
                (DialogReturnValue::default(), ops)
            },
            Key::Insert => {
                self.toggle_input();
                let ops = self.redraw_focused_control();
                proof {
                    lemma_owner(old(self)@.tabs(), old(self)@.focused);
                    match old(self)@.focused_control() {
                        Some(at) => {
                            lemma_tabs_update(old(self)@.controls, at, self@.controls[at]);
                        },
                        None => {},
                    }
                }
                (DialogReturnValue::default(), ops)
            },
            _ => match self.get_focused_control() {
                Some(at) => {
                    let answer = self.controls[at].handle_input(key, self.mode);
                    proof {
                        self.lemma_replaced(old(self), at as int);
                    }
                    if answer.0.should_quit {
                        (
                            DialogReturnValue {
                                should_quit: true,
                                dialog_result: answer.0.dialog_result,
                                values: self.get_data(),
                            },
                            answer.1,
                        )
                    } else {
                        answer
                    }
                },
                None => (DialogReturnValue::default(), Vec::new()),
            },
        }
    }

    /// Takes a key code as the terminal reports it, sorts it into the keys
    /// that the dialog tells apart, and applies that key as `handle_key`
    /// does. The modifiers play no part. A key code is opaque to the
    /// verifier, so the contract leaves open which key was applied: it says
    /// that the dialog, the answer and the frame are those of one and the
    /// same key. A caller that needs to know the key calls `handle_key`.
    pub fn handle_input(
        &mut self,
        code: crossterm::event::KeyCode,
        _modifiers: crossterm::event::KeyModifiers,
    ) -> (r: (DialogReturnValue, Vec<DrawOp>))
        requires
            old(self).wf(),
        ensures
            final(self).wf(),
            exists|key: Key|
                {
                    &&& final(self)@ == old(self)@.after(key)
                    &&& r.0.dialog_result == old(self)@.outcome(key)
                    &&& r.0.should_quit == old(self)@.outcome(key).is_some()
                    &&& r.1@ == old(self)@.key_frame(key)
                },
            r.0.values.wf(),
            r.0.values@ == if r.0.should_quit {
                final(self)@.values()
            } else {
                Map::<Seq<char>, Seq<char>>::empty()
            },
    {
        let key = decode(code);
        self.handle_key(key)
    }
}

impl Default for Dialog {
    /// A dialog without a title and without controls, not laid out and not
    /// visible, that is filled, has no overlay and a double border, inserts
    /// what is typed, submits with Okay and cancels with Cancel.
    fn default() -> (r: Self)
        ensures
            r.wf(),
            r@.title == Seq::<char>::empty(),
            r@.controls == Seq::<ControlModel>::empty(),
            r@.position.is_none() && r@.size.is_none() && r@.screen_size.is_none(),
            !r@.overlay && r@.fill && !r@.is_visible,
            r@.margin == (Position { x: 0, y: 0 }),
            r@.focused == 0,
            r@.button_count.is_none(),
            r@.mode == TextMode::Insert,
            r@.submit_result == DialogResult::Okay,
            r@.cancel_result == DialogResult::Cancel,
            r@.border_chars.top == '═' && r@.border_chars.left == '║',
    {
        let r = Self {
            position: None,
            size: None,
            screen_size: None,
            title: String::new(),
            controls: Vec::new(),
            colors: DialogColors::default(),
            overlay: false,
            fill: true,
            border_chars: BorderChars::default(),
            margin: Position { x: 0, y: 0 },
            button_count: None,
            submit_result: DialogResult::Okay,
            cancel_result: DialogResult::Cancel,
            is_visible: false,
            mode: TextMode::Insert,
            focused: 0,
        };
        assert(models(r.controls@) =~= Seq::<ControlModel>::empty());
        r
    }
}

/// What a dialog under construction is, as mathematics.
pub struct BuilderModel {
    pub title: Seq<char>,
    /// The controls in the order in which they were added.
    pub controls: Seq<ControlModel>,
    pub borders: Borders,
    pub margin: Position,
    pub colors: DialogColors,
    pub overlay: bool,
    pub fill: bool,
    pub submit_result: DialogResult,
    pub cancel_result: DialogResult,
    /// How many buttons were added.
    pub button_count: Option<ButtonCount>,
}

/// The count of buttons after one more was added. A dialog has room for
/// three.
pub open spec fn one_more(count: Option<ButtonCount>) -> Option<ButtonCount> {
    match count {
        None => Some(ButtonCount::One),
        Some(ButtonCount::One) => Some(ButtonCount::Two),
        Some(ButtonCount::Two) => Some(ButtonCount::Three),
        Some(ButtonCount::Three) => Some(ButtonCount::Three),
    }
}

/// The number that a count of buttons stands for.
pub open spec fn number_of(count: Option<ButtonCount>) -> int {
    match count {
        None => 0,
        Some(ButtonCount::One) => 1,
        Some(ButtonCount::Two) => 2,
        Some(ButtonCount::Three) => 3,
    }
}

impl BuilderModel {
    /// The count of buttons is the number of buttons among the controls.
    pub open spec fn wf(self) -> bool {
        crate::layout::button_count(self.controls) == number_of(self.button_count)
    }

    /// Whether `control` can be added: a button only while there are fewer
    /// than three.
    pub open spec fn has_room_for(self, control: ControlModel) -> bool {
        control is Button ==> self.button_count != Some(ButtonCount::Three)
    }

    /// The construction after `control` was added.
    pub open spec fn with(self, control: ControlModel) -> BuilderModel {
        BuilderModel {
            controls: self.controls.push(control),
            button_count: if control is Button {
                one_more(self.button_count)
            } else {
                self.button_count
            },
            ..self
        }
    }

    /// Every button has a place among the buttons that were added.
    pub open spec fn buttons_fit(self) -> bool {
        forall|i: int|
            0 <= i < self.controls.len() ==> match #[trigger] self.controls[i] {
                ControlModel::Button(b) => self.button_count.is_some() && slot_fits(
                    b.index,
                    self.button_count.unwrap(),
                ),
                ControlModel::TextField(_) => true,
            }
    }
}

/// Collects what a dialog is made of and builds it.
#[derive(Debug)]
pub struct DialogBuilder {
    title: String,
    controls: Vec<Control>,
    borders: Borders,
    margin: Position,
    colors: DialogColors,
    overlay: bool,
    fill: bool,
    submit_result: DialogResult,
    cancel_result: DialogResult,
    button_count: Option<ButtonCount>,
}

impl View for DialogBuilder {
    type V = BuilderModel;

    closed spec fn view(&self) -> BuilderModel {
        BuilderModel {
            title: self.title@,
            controls: models(self.controls@),
            borders: self.borders,
            margin: self.margin,
            colors: self.colors,
            overlay: self.overlay,
            fill: self.fill,
            submit_result: self.submit_result,
            cancel_result: self.cancel_result,
            button_count: self.button_count,
        }
    }
}

impl Default for DialogBuilder {
    fn default() -> (r: Self)
        ensures
            r.wf(),
            r@.title == Seq::<char>::empty(),
            r@.controls == Seq::<ControlModel>::empty(),
            r@.borders == (Borders {
                top: BorderStyle::Double,
                left: BorderStyle::Double,
                right: BorderStyle::Double,
                bottom: BorderStyle::Double,
                split: BorderStyle::Double,
            }),
            r@.margin == (Position { x: 0, y: 0 }),
            !r@.overlay && r@.fill,
            r@.submit_result == DialogResult::Okay,
            r@.cancel_result == DialogResult::Cancel,
            r@.button_count.is_none(),
    {
        let r = Self {
            title: String::new(),
            controls: Vec::new(),
            borders: Borders::default(),
            margin: Position { x: 0, y: 0 },
            colors: DialogColors::default(),
            overlay: false,
            fill: true,
            submit_result: DialogResult::Okay,
            cancel_result: DialogResult::Cancel,
            button_count: None,
        };
        assert(models(r.controls@) =~= Seq::<ControlModel>::empty());
        r
    }
}

impl DialogBuilder {
    /// Every control is in order, and the count of buttons is the number of
    /// buttons among the controls.
    pub closed spec fn wf(&self) -> bool {
        &&& all_wf(self.controls@)
        &&& self@.wf()
    }

    /// Starts a dialog with the given title and nothing else set.
    pub fn new(title: &str) -> (r: Self)
        ensures
            r.wf(),
            r@.title == title@,
            r@.controls == Seq::<ControlModel>::empty(),
            r@.margin == (Position { x: 0, y: 0 }),
            !r@.overlay && r@.fill,
            r@.submit_result == DialogResult::Okay,
            r@.cancel_result == DialogResult::Cancel,
            r@.button_count.is_none(),
    {
        let mut r = Self::default();
        r.title = title.to_owned();
        r
    }

    pub fn set_borders(self, borders: Borders) -> (r: Self)
        requires
            self.wf(),
        ensures
            r.wf(),
            r@ == (BuilderModel { borders, ..self@ }),
    {
        let mut r = self;
        r.borders = borders;
        r
    }

    /// Whether `control` can be added: a button only while there are fewer
    /// than three.
    pub fn has_room_for(&self, control: &Control) -> (r: bool)
        ensures
            r == self@.has_room_for(control@),
    {
        match control {
            Control::Button(_) => match self.button_count {
                Some(ButtonCount::Three) => false,
                _ => true,
            },
            Control::TextField(_) => true,
        }
    }

    /// Adds a control. A dialog has room for three buttons.
    pub fn add_control(self, control: Control) -> (r: Self)
        requires
            self.wf(),
            control.wf(),
            self@.has_room_for(control@),
        ensures
            r.wf(),
            r@ == self@.with(control@),
    {
        let mut r = self;
        let ghost before = r.controls@;
        match &control {
            Control::TextField(_) => {},
            Control::Button(_) => {
                r.button_count =
                match r.button_count {
                    None => Some(ButtonCount::One),
                    Some(ButtonCount::One) => Some(ButtonCount::Two),
                    _ => Some(ButtonCount::Three),
                };
            },
        }
        r.controls.push(control);
        proof {
            assert(models(r.controls@) =~= models(before).push(control@));
            assert(models(r.controls@).drop_last() =~= models(before));
            assert forall|i: int| 0 <= i < r.controls@.len() implies (#[trigger] r.controls@[i]).wf() by {
                if i < before.len() {
                    assert(before[i].wf());
                }
            }
        }
        r
    }

    pub fn set_margin(self, margin: Position) -> (r: Self)
        requires
            self.wf(),
        ensures
            r.wf(),
            r@ == (BuilderModel { margin, ..self@ }),
    {
        let mut r = self;
        r.margin = margin;
        r
    }

    pub fn set_colors(self, colors: DialogColors) -> (r: Self)
        requires
            self.wf(),
        ensures
            r.wf(),
            r@ == (BuilderModel { colors, ..self@ }),
    {
        let mut r = self;
        r.colors = colors;
        r
    }

    pub fn set_fill(self, fill: bool) -> (r: Self)
        requires
            self.wf(),
        ensures
            r.wf(),
            r@ == (BuilderModel { fill, ..self@ }),
    {
        let mut r = self;
        r.fill = fill;
        r
    }

    pub fn set_overlay(self, overlay: bool) -> (r: Self)
        requires
            self.wf(),
        ensures
            r.wf(),
            r@ == (BuilderModel { overlay, ..self@ }),
    {
        let mut r = self;
        r.overlay = overlay;
        r
    }

    pub fn set_submit_result(self, result: DialogResult) -> (r: Self)
        requires
            self.wf(),
        ensures
            r.wf(),
            r@ == (BuilderModel { submit_result: result, ..self@ }),
    {
        let mut r = self;
        r.submit_result = result;
        r
    }

    pub fn set_cancel_result(self, result: DialogResult) -> (r: Self)
        requires
            self.wf(),
        ensures
            r.wf(),
            r@ == (BuilderModel { cancel_result: result, ..self@ }),
    {
        let mut r = self;
        r.cancel_result = result;
        r
    }

    /// Whether every button has a place among the buttons that were added.
    pub fn buttons_fit(&self) -> (r: bool)
        ensures
            r == self@.buttons_fit(),
    {
        let mut i: usize = 0;
        while i < self.controls.len()
            invariant
                i <= self.controls@.len(),
                forall|j: int|
                    0 <= j < i ==> match #[trigger] self@.controls[j] {
                        ControlModel::Button(b) => self@.button_count.is_some() && slot_fits(
                            b.index,
                            self@.button_count.unwrap(),
                        ),
                        ControlModel::TextField(_) => true,
                    },
            decreases self.controls@.len() - i,
        {
            match &self.controls[i] {
                Control::Button(b) => {
                    let fits = match (b.get_index(), self.button_count) {
                        (_, None) => false,
                        (ButtonCount::Three, Some(ButtonCount::Two)) => false,
                        _ => true,
                    };
                    if !fits {
                        assert(self@.controls[i as int] == self.controls@[i as int]@);
                        return false;
                    }
                },
                Control::TextField(_) => {},
            }
            i += 1;
        }
        true
    }

    /// Builds the dialog: the controls in the order of their tab indexes,
    /// those with the same tab index in the order in which they were added,
    /// each in the colours of the theme; the glyphs of the border picked by
    /// its ruling; nothing laid out or shown yet, the focus at tab index
    /// zero, typing inserts.
    pub fn build(self) -> (dialog: Dialog)
        requires
            self.wf(),
            self@.buttons_fit(),
        ensures
            dialog.wf(),
            is_tab_order_of(dialog@.controls, all_themed(self@.controls, self@.colors)),
            dialog@.title == self@.title,
            dialog@.margin == self@.margin,
            dialog@.colors == self@.colors,
            dialog@.overlay == self@.overlay,
            dialog@.fill == self@.fill,
            dialog@.submit_result == self@.submit_result,
            dialog@.cancel_result == self@.cancel_result,
            dialog@.button_count == self@.button_count,
            dialog@.position.is_none() && dialog@.size.is_none() && dialog@.screen_size.is_none(),
            !dialog@.is_visible,
            dialog@.focused == 0,
            dialog@.mode == TextMode::Insert,
            dialog@.border_chars.top == horizontal_glyph(self@.borders.top),
            dialog@.border_chars.bottom == horizontal_glyph(self@.borders.bottom),
            dialog@.border_chars.split == horizontal_glyph(self@.borders.split),
            dialog@.border_chars.left == vertical_glyph(self@.borders.left),
            dialog@.border_chars.right == vertical_glyph(self@.borders.right),
            dialog@.border_chars.tl == joint_glyph(
                Joint::TopLeft,
                self@.borders.top,
                self@.borders.left,
            ),
            dialog@.border_chars.tr == joint_glyph(
                Joint::TopRight,
                self@.borders.top,
                self@.borders.right,
            ),
            dialog@.border_chars.bl == joint_glyph(
                Joint::BottomLeft,
                self@.borders.bottom,
                self@.borders.left,
            ),
            dialog@.border_chars.br == joint_glyph(
                Joint::BottomRight,
                self@.borders.bottom,
                self@.borders.right,
            ),
            dialog@.border_chars.left_intersect == joint_glyph(
                Joint::LeftTee,
                self@.borders.split,
                self@.borders.left,
            ),
            dialog@.border_chars.right_intersect == joint_glyph(
                Joint::RightTee,
                self@.borders.split,
                self@.borders.right,
            ),
    {
        let ghost given = self@;
        let mut controls = self.controls;
        theme_all(&mut controls, self.colors);
        let ghost themed = models(controls@);
        let controls = sort_by_tab(controls);
        let dialog = Dialog {
            title: self.title,
            border_chars: BorderChars::new(self.borders),
            controls,
            margin: self.margin,
            colors: self.colors,
            overlay: self.overlay,
            fill: self.fill,
            submit_result: self.submit_result,
            cancel_result: self.cancel_result,
            button_count: self.button_count,
            position: None,
            size: None,
            screen_size: None,
            is_visible: false,
            mode: TextMode::Insert,
            focused: 0,
        };
        proof {
            lemma_models_wf(dialog.controls@);
            lemma_sorted_members(dialog@.controls, themed);
            assert forall|i: int| 0 <= i < dialog@.controls.len() implies {
                &&& (#[trigger] dialog@.controls[i]).wf()
                &&& match dialog@.controls[i] {
                    ControlModel::Button(b) => dialog@.button_count.is_some() && slot_fits(
                        b.index,
                        dialog@.button_count.unwrap(),
                    ),
                    ControlModel::TextField(_) => true,
                }
            } by {
                let j = choose|j: int| 0 <= j < themed.len() && themed[j] == dialog@.controls[i];
                assert(themed[j] == given.controls[j].themed(given.colors));
                assert(given.controls[j] is Button ==> given.button_count.is_some());
            }
        }
        dialog
    }
}

} // verus!
