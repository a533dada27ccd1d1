//! Cursor positions and region sizes.
use vstd::prelude::*;
use vstd::std_specs::ops::AddSpecImpl;
use vstd::std_specs::ops::SubSpecImpl;
use vstd::string::StringExecFns;
use crate::text::{decimal, push_decimal};

verus! {

/// A cursor position: `x` is the column, `y` the row.
#[derive(Copy, Clone, Default, PartialEq, Eq, PartialOrd, Structural, Debug)]
pub struct Position {
    pub x: usize,
    pub y: usize,
}

/// The width and height of a region of the screen.
#[derive(Copy, Clone, Default, PartialEq, Eq, PartialOrd, Structural, Debug)]
pub struct Size {
    pub width: usize,
    pub height: usize,
}

impl Position {
    /// Builds a position from a column and a row.
    pub fn new(x: usize, y: usize) -> (p: Position)
        ensures
            p.x == x,
            p.y == y,
    {
        Position { x, y }
    }
}

/// A position as the editor shows it: `(x` `x` `y)`, e.g. `(3x7)`.
pub open spec fn position_text(p: Position) -> Seq<char> {
    "("@ + decimal(p.x as nat) + "x"@ + decimal(p.y as nat) + ")"@
}

impl Position {
    /// The position as the editor shows it, e.g. `(3x7)`.
    pub fn display_text(&self) -> (s: String)
        ensures
            s@ == position_text(*self),
    {
        let mut s = String::from_str("(");
        push_decimal(&mut s, self.x as u64);
        s.append("x");
        push_decimal(&mut s, self.y as u64);
        s.append(")");
        s
    }
}

impl Size {
    /// Builds a size from a width and a height.
    pub fn new(width: usize, height: usize) -> (s: Size)
        ensures
            s.width == width,
            s.height == height,
    {
        Size { width, height }
    }
}

impl core::ops::Add for Position {
    type Output = Position;

    /// Adds two positions component by component.
    fn add(self, other: Position) -> (r: Position) {
        Position { x: self.x + other.x, y: self.y + other.y }
    }
}

impl AddSpecImpl for Position {
    open spec fn obeys_add_spec() -> bool {
        true
    }

    open spec fn add_req(self, rhs: Position) -> bool {
        self.x + rhs.x <= usize::MAX && self.y + rhs.y <= usize::MAX
    }

    open spec fn add_spec(self, rhs: Position) -> Position {
        Position { x: (self.x + rhs.x) as usize, y: (self.y + rhs.y) as usize }
    }
}

impl core::ops::Sub for Position {
    type Output = Position;

    /// Subtracts two positions component by component.
    fn sub(self, other: Position) -> (r: Position) {
        Position { x: self.x - other.x, y: self.y - other.y }
    }
}

impl SubSpecImpl for Position {
    open spec fn obeys_sub_spec() -> bool {
        true
    }

    open spec fn sub_req(self, rhs: Position) -> bool {
        self.x >= rhs.x && self.y >= rhs.y
    }

    open spec fn sub_spec(self, rhs: Position) -> Position {
        Position { x: (self.x - rhs.x) as usize, y: (self.y - rhs.y) as usize }
    }
}

} // verus!
