use vstd::prelude::*;

verus! {

/// A cell of the character grid, counted from the top-left corner.
#[derive(Debug, Clone, Copy, PartialEq, Eq, Structural)]
pub struct Position {
    pub x: usize,
    pub y: usize,
}

/// An extent of the character grid, in cells.
#[derive(Debug, Clone, Copy, PartialEq, Eq, Structural)]
pub struct Size {
    pub width: usize,
    pub height: usize,
}

impl From<(usize, usize)> for Position {
    fn from(value: (usize, usize)) -> (r: Self) {
        Self { x: value.0, y: value.1 }
    }
}

impl vstd::std_specs::convert::FromSpecImpl<(usize, usize)> for Position {
    open spec fn obeys_from_spec() -> bool {
        true
    }

    open spec fn from_spec(value: (usize, usize)) -> Self {
        Position { x: value.0, y: value.1 }
    }
}

impl From<(usize, usize)> for Size {
    fn from(value: (usize, usize)) -> (r: Self) {
        Self { width: value.0, height: value.1 }
    }
}

impl vstd::std_specs::convert::FromSpecImpl<(usize, usize)> for Size {
    open spec fn obeys_from_spec() -> bool {
        true
    }

    open spec fn from_spec(value: (usize, usize)) -> Self {
        Size { width: value.0, height: value.1 }
    }
}

impl From<(u16, u16)> for Size {
    fn from(value: (u16, u16)) -> (r: Self) {
        Self { width: value.0 as usize, height: value.1 as usize }
    }
}

impl vstd::std_specs::convert::FromSpecImpl<(u16, u16)> for Size {
    open spec fn obeys_from_spec() -> bool {
        true
    }

    open spec fn from_spec(value: (u16, u16)) -> Self {
        Size { width: value.0 as usize, height: value.1 as usize }
    }
}

/// The value in `usize` that lies nearest to `v`.
pub open spec fn saturate(v: int) -> usize {
    if v < 0 {
        0usize
    } else if v > usize::MAX {
        usize::MAX
    } else {
        v as usize
    }
}

/// Computes `plus - minus` and brings the difference into `usize`.
pub fn offset(plus: u128, minus: u128) -> (r: usize)
    ensures
        r == saturate(plus - minus),
{
    if plus <= minus {
        0
    } else {
        let d: u128 = plus - minus;
        if d > usize::MAX as u128 {
            usize::MAX
        } else {
            d as usize
        }
    }
}

/// Appends `c` to `text`. Calls `String::push`, of which std says that it
/// appends the given character to the end of the string.
#[verifier::external_body]
pub(crate) fn push_char(text: &mut String, c: char)
    ensures
        final(text)@ == old(text)@.push(c),
{
    text.push(c)
}

/// The string made of `chars`, first to last.
pub fn text_of(chars: &Vec<char>) -> (text: String)
    ensures
        text@ == chars@,
{
    let mut text = String::new();
    let mut i: usize = 0;
    while i < chars.len()
        invariant
            i <= chars@.len(),
            text@ =~= chars@.subrange(0, i as int),
        decreases chars@.len() - i,
    {
        push_char(&mut text, chars[i]);
        i += 1;
    }
    assert(chars@.subrange(0, i as int) =~= chars@);
    text
}

} // verus!
