//! The levels of headings and how much larger than body text each is drawn.
use vstd::prelude::*;

verus! {

/// A heading level, from the largest to the smallest.
#[derive(Debug, Clone, Copy, PartialEq, Eq, Structural)]
pub enum HeadingLevel {
    H1,
    H2,
    H3,
    H4,
    H5,
    H6,
}

/// How many points a heading of this level is larger than body text.
pub open spec fn size_increase(level: HeadingLevel) -> nat {
    match level {
        HeadingLevel::H1 => 20,
        HeadingLevel::H2 => 15,
        HeadingLevel::H3 => 10,
        HeadingLevel::H4 => 5,
        HeadingLevel::H5 => 3,
        HeadingLevel::H6 => 1,
    }
}

impl HeadingLevel {
    /// How many points a heading of this level is larger than the default
    /// text size.
    pub fn text_size_increase(&self) -> (r: u8)
        ensures
            r == size_increase(*self),
    {
        match self {
            HeadingLevel::H1 => 20,
            HeadingLevel::H2 => 15,
            HeadingLevel::H3 => 10,
            HeadingLevel::H4 => 5,
            HeadingLevel::H5 => 3,
            HeadingLevel::H6 => 1,
        }
    }
}

} // verus!
