use vstd::prelude::*;

verus! {

/// `crossterm::style::Colors`, a foreground and a background colour. The
/// verifier sees nothing of what a value holds.
#[verifier::external_type_specification]
#[verifier::external_body]
pub struct ExColors(crossterm::style::Colors);

/// `Colors` is `Copy`, and its `Clone` is derived: the clone is the pair
/// itself.
pub assume_specification[ <crossterm::style::Colors as Clone>::clone ](
    colors: &crossterm::style::Colors,
) -> (r: crossterm::style::Colors)
    ensures
        r == *colors,
;

/// White on black, the pair that every zone has until a theme is set. Calls
/// `crossterm::style::Colors::new`; nothing is claimed of the pair, which is
/// opaque to the verifier.
#[verifier::external_body]
pub(crate) fn plain_colors() -> (colors: crossterm::style::Colors) {
    crossterm::style::Colors::new(crossterm::style::Color::White, crossterm::style::Color::Black)
}

/// Colours of a line editor: its text and its overflow indicators.
#[derive(Debug, Clone, Copy)]
pub struct LineBufferColors {
    pub focus: crossterm::style::Colors,
    pub input: crossterm::style::Colors,
}

impl LineBufferColors {
    pub fn new(input: crossterm::style::Colors, indicators: crossterm::style::Colors) -> (r: Self)
        ensures
            r.input == input,
            r.focus == indicators,
    {
        Self { focus: indicators, input }
    }
}

impl Default for LineBufferColors {
    fn default() -> (r: Self)
        ensures
            r.focus == r.input,
    {
        let plain = plain_colors();
        Self { focus: plain, input: plain }
    }
}

/// Colours of a text field: its label and its line editor.
#[derive(Debug, Clone, Copy)]
pub struct FieldColors {
    pub label: crossterm::style::Colors,
    pub input: LineBufferColors,
}

impl FieldColors {
    pub fn new(
        label: crossterm::style::Colors,
        input: crossterm::style::Colors,
        indicators: crossterm::style::Colors,
    ) -> (r: Self)
        ensures
            r.label == label,
            r.input.input == input,
            r.input.focus == indicators,
    {
        Self { label, input: LineBufferColors::new(input, indicators) }
    }
}

impl Default for FieldColors {
    fn default() -> (r: Self)
        ensures
            r.label == r.input.input,
            r.label == r.input.focus,
    {
        let plain = plain_colors();
        Self { label: plain, input: LineBufferColors { focus: plain, input: plain } }
    }
}

/// Colours of a button: its name, and the brackets that mark the focus.
#[derive(Debug, Clone, Copy)]
pub struct ButtonColors {
    pub button: crossterm::style::Colors,
    pub focus: crossterm::style::Colors,
}

impl ButtonColors {
    pub fn new(button: crossterm::style::Colors, focus: crossterm::style::Colors) -> (r: Self)
        ensures
            r.button == button,
            r.focus == focus,
    {
        Self { button, focus }
    }
}

impl Default for ButtonColors {
    fn default() -> (r: Self)
        ensures
            r.button == r.focus,
    {
        let plain = plain_colors();
        Self { button: plain, focus: plain }
    }
}

/// The colour theme of a dialog, zone by zone.
#[derive(Debug, Clone, Copy)]
pub struct DialogColors {
    pub border: crossterm::style::Colors,
    pub fill: crossterm::style::Colors,
    pub overlay: crossterm::style::Colors,
    pub fields: FieldColors,
    pub buttons: ButtonColors,
}

impl DialogColors {
    pub fn new(
        border: crossterm::style::Colors,
        fill: crossterm::style::Colors,
        overlay: crossterm::style::Colors,
        labels: crossterm::style::Colors,
        inputs: crossterm::style::Colors,
        input_indicators: crossterm::style::Colors,
        buttons: crossterm::style::Colors,
        button_focus: crossterm::style::Colors,
    ) -> (r: Self)
        ensures
            r.border == border,
            r.fill == fill,
            r.overlay == overlay,
            r.fields.label == labels,
            r.fields.input.input == inputs,
            r.fields.input.focus == input_indicators,
            r.buttons.button == buttons,
            r.buttons.focus == button_focus,
    {
        Self {
            border,
            fill,
            overlay,
            fields: FieldColors::new(labels, inputs, input_indicators),
            buttons: ButtonColors::new(buttons, button_focus),
        }
    }
}

impl Default for DialogColors {
    fn default() -> (r: Self)
        ensures
            r.fill == r.border,
            r.overlay == r.border,
            r.fields.label == r.border,
            r.fields.input.input == r.border,
            r.fields.input.focus == r.border,
            r.buttons.button == r.border,
            r.buttons.focus == r.border,
    {
        let plain = plain_colors();
        Self {
            border: plain,
            fill: plain,
            overlay: plain,
            fields: FieldColors {
                label: plain,
                input: LineBufferColors { focus: plain, input: plain },
            },
            buttons: ButtonColors { button: plain, focus: plain },
        }
    }
}

} // verus!
