//! Screen rectangles.
use vstd::prelude::*;

verus! {

/// A rectangle of terminal cells.
#[derive(Clone, Copy, Debug, PartialEq, Eq, Structural)]
pub struct Rect {
    pub x: u16,
    pub y: u16,
    pub width: u16,
    pub height: u16,
}

impl Rect {
    /// The rectangle at (`x`, `y`) with the given size.
    pub fn new(x: u16, y: u16, width: u16, height: u16) -> (rect: Rect)
        ensures
            rect == (Rect { x, y, width, height }),
    {
        Rect { x, y, width, height }
    }

    /// Whether the cell at (`col`, `row`) lies in the rectangle.
    pub open spec fn covers(self, col: u16, row: u16) -> bool {
        self.x <= col < self.x + self.width && self.y <= row < self.y + self.height
    }

    /// Whether the cell at (`col`, `row`) lies in the rectangle.
    pub fn contains_cell(&self, col: u16, row: u16) -> (inside: bool)
        ensures
            inside == self.covers(col, row),
    {
        col >= self.x && (col as u32) < self.x as u32 + self.width as u32 && row >= self.y && (
        row as u32) < self.y as u32 + self.height as u32
    }
}

} // verus!
