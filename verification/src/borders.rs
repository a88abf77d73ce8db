use vstd::prelude::*;

verus! {

/// How an edge of the dialog is ruled.
#[derive(Debug, Clone, Copy, PartialEq, Eq, Structural)]
pub enum BorderStyle {
    Single,
    Double,
}

impl Default for BorderStyle {
    fn default() -> (r: Self)
        ensures
            r == BorderStyle::Double,
    {
        BorderStyle::Double
    }
}

/// The ruling of the four edges and of the line above the buttons.
#[derive(Debug, Clone, Copy, PartialEq, Eq, Structural)]
pub struct Borders {
    pub top: BorderStyle,
    pub left: BorderStyle,
    pub right: BorderStyle,
    pub bottom: BorderStyle,
    pub split: BorderStyle,
}

impl Borders {
    pub fn new(
        top: BorderStyle,
        left: BorderStyle,
        right: BorderStyle,
        bottom: BorderStyle,
        split: BorderStyle,
    ) -> (r: Self)
        ensures
            r == (Borders { top, left, right, bottom, split }),
    {
        Self { top, left, right, bottom, split }
    }
}

impl Default for Borders {
    fn default() -> (r: Self)
        ensures
            r == (Borders {
                top: BorderStyle::Double,
                left: BorderStyle::Double,
                right: BorderStyle::Double,
                bottom: BorderStyle::Double,
                split: BorderStyle::Double,
            }),
    {
        Self {
            top: BorderStyle::Double,
            left: BorderStyle::Double,
            right: BorderStyle::Double,
            bottom: BorderStyle::Double,
            split: BorderStyle::Double,
        }
    }
}

/// A place where a horizontal and a vertical line meet.
pub enum Joint {
    TopLeft,
    TopRight,
    BottomLeft,
    BottomRight,
    /// The split line leaves the left edge.
    LeftTee,
    /// The split line reaches the right edge.
    RightTee,
}

/// The glyph of a horizontal line.
pub open spec fn horizontal_glyph(style: BorderStyle) -> char {
    if style == BorderStyle::Single {
        '─'
    } else {
        '═'
    }
}

/// The glyph of a vertical line.
pub open spec fn vertical_glyph(style: BorderStyle) -> char {
    if style == BorderStyle::Single {
        '│'
    } else {
        '║'
    }
}

/// The four glyphs of a joint, in the order: both lines single; horizontal
/// single and vertical double; horizontal double and vertical single; both
/// double.
pub open spec fn joint_glyphs(joint: Joint) -> (char, char, char, char) {
    match joint {
        Joint::TopLeft => ('┌', '╓', '╒', '╔'),
        Joint::TopRight => ('┐', '╖', '╕', '╗'),
        Joint::BottomLeft => ('└', '╙', '╘', '╚'),
        Joint::BottomRight => ('┘', '╜', '╛', '╝'),
        Joint::LeftTee => ('├', '╟', '╞', '╠'),
        Joint::RightTee => ('┤', '╢', '╡', '╣'),
    }
}

/// The glyph for `joint` where a horizontal line ruled `horizontal` meets a
/// vertical line ruled `vertical`.
pub open spec fn joint_glyph(joint: Joint, horizontal: BorderStyle, vertical: BorderStyle) -> char {
    let glyphs = joint_glyphs(joint);
    match (horizontal, vertical) {
        (BorderStyle::Single, BorderStyle::Single) => glyphs.0,
        (BorderStyle::Single, BorderStyle::Double) => glyphs.1,
        (BorderStyle::Double, BorderStyle::Single) => glyphs.2,
        (BorderStyle::Double, BorderStyle::Double) => glyphs.3,
    }
}

/// The glyphs that draw a dialog's frame.
#[derive(Debug, Clone, Copy, PartialEq, Eq, Structural)]
pub struct BorderChars {
    pub tl: char,
    pub tr: char,
    pub bl: char,
    pub br: char,
    pub top: char,
    pub left: char,
    pub right: char,
    pub bottom: char,
    pub left_intersect: char,
    pub right_intersect: char,
    pub split: char,
}

impl BorderChars {
    /// Picks the glyph of each edge from its ruling, and the glyph of each
    /// corner and tee from the rulings of the two lines that meet there.
    pub fn new(borders: Borders) -> (r: Self)
        ensures
            r.top == horizontal_glyph(borders.top),
            r.bottom == horizontal_glyph(borders.bottom),
            r.split == horizontal_glyph(borders.split),
            r.left == vertical_glyph(borders.left),
            r.right == vertical_glyph(borders.right),
            r.tl == joint_glyph(Joint::TopLeft, borders.top, borders.left),
            r.tr == joint_glyph(Joint::TopRight, borders.top, borders.right),
            r.bl == joint_glyph(Joint::BottomLeft, borders.bottom, borders.left),
            r.br == joint_glyph(Joint::BottomRight, borders.bottom, borders.right),
            r.left_intersect == joint_glyph(Joint::LeftTee, borders.split, borders.left),
            r.right_intersect == joint_glyph(Joint::RightTee, borders.split, borders.right),
    {
        let left_intersect = match (borders.left, borders.split) {
            (BorderStyle::Single, BorderStyle::Single) => '├',
            (BorderStyle::Single, BorderStyle::Double) => '╞',
            (BorderStyle::Double, BorderStyle::Single) => '╟',
            (BorderStyle::Double, BorderStyle::Double) => '╠',
        };
        let right_intersect = match (borders.right, borders.split) {
            (BorderStyle::Single, BorderStyle::Single) => '┤',
            (BorderStyle::Single, BorderStyle::Double) => '╡',
            (BorderStyle::Double, BorderStyle::Single) => '╢',
            (BorderStyle::Double, BorderStyle::Double) => '╣',
        };
        let tl = match (borders.top, borders.left) {
            (BorderStyle::Single, BorderStyle::Single) => '┌',
            (BorderStyle::Single, BorderStyle::Double) => '╓',
            (BorderStyle::Double, BorderStyle::Single) => '╒',
            (BorderStyle::Double, BorderStyle::Double) => '╔',
        };
        let tr = match (borders.top, borders.right) {
            (BorderStyle::Single, BorderStyle::Single) => '┐',
            (BorderStyle::Single, BorderStyle::Double) => '╖',
            (BorderStyle::Double, BorderStyle::Single) => '╕',
            (BorderStyle::Double, BorderStyle::Double) => '╗',
        };
        let bl = match (borders.bottom, borders.left) {
            (BorderStyle::Single, BorderStyle::Single) => '└',
            (BorderStyle::Single, BorderStyle::Double) => '╙',
            (BorderStyle::Double, BorderStyle::Single) => '╘',
            (BorderStyle::Double, BorderStyle::Double) => '╚',
        };
        let br = match (borders.bottom, borders.right) {
            (BorderStyle::Single, BorderStyle::Single) => '┘',
            (BorderStyle::Single, BorderStyle::Double) => '╜',
            (BorderStyle::Double, BorderStyle::Single) => '╛',
            (BorderStyle::Double, BorderStyle::Double) => '╝',
        };
        let top = match borders.top {
            BorderStyle::Single => '─',
            BorderStyle::Double => '═',
        };
        let left = match borders.left {
            BorderStyle::Single => '│',
            BorderStyle::Double => '║',
        };
        let right = match borders.right {
            BorderStyle::Single => '│',
            BorderStyle::Double => '║',
        };
        let bottom = match borders.bottom {
            BorderStyle::Single => '─',
            BorderStyle::Double => '═',
        };
        let split = match borders.split {
            BorderStyle::Single => '─',
            BorderStyle::Double => '═',
        };
        Self { tl, tr, bl, br, top, left, right, bottom, left_intersect, right_intersect, split }
    }
}

impl Default for BorderChars {
    fn default() -> (r: Self)
        ensures
            r.top == '═' && r.bottom == '═' && r.split == '═',
            r.left == '║' && r.right == '║',
            r.tl == '╔' && r.tr == '╗' && r.bl == '╚' && r.br == '╝',
            r.left_intersect == '╠' && r.right_intersect == '╣',
    {
        Self::new(Borders::default())
    }
}

} // verus!
