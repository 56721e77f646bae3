//! Which ways a scrollable area scrolls, and where its scrollbars sit.
use vstd::prelude::*;

verus! {

/// The directions in which an area scrolls.
#[derive(Debug, Clone, Copy, PartialEq, Eq, Structural)]
pub enum Direction {
    Vertical,
    Horizontal,
    Both,
}

impl Default for Direction {
    /// Vertical scrolling only.
    fn default() -> (r: Self)
        ensures
            r == Direction::Vertical,
    {
        Direction::Vertical
    }
}

impl Direction {
    /// True unless the area scrolls horizontally only.
    pub fn vertical(&self) -> (r: bool)
        ensures
            r == !(*self is Horizontal),
    {
        !matches!(self, Direction::Horizontal)
    }

    /// True unless the area scrolls vertically only.
    pub fn horizontal(&self) -> (r: bool)
        ensures
            r == !(*self is Vertical),
    {
        !matches!(self, Direction::Vertical)
    }
}

/// Where a scrollbar sits: before or after the content.
#[derive(Debug, Clone, Copy, PartialEq, Eq, Structural)]
pub enum Placement {
    Start,
    End,
}

impl Default for Placement {
    /// After the content.
    fn default() -> (r: Self)
        ensures
            r == Placement::End,
    {
        Placement::End
    }
}

} // verus!
