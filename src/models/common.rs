//! Common types.
use vstd::prelude::*;

verus! {

pub type ChatID = String;

pub type AccountID = String;

pub type Cursor = String;

/// Pagination direction.
#[derive(Debug, Clone, Copy, PartialEq, Eq, Structural)]
pub enum Direction {
    Before,
    After,
}

impl Direction {
    /// The wire name of the direction, as the `direction` query parameter takes it.
    pub fn as_str(&self) -> (r: &'static str)
        ensures
            r@ == match self {
                Direction::Before => "before"@,
                Direction::After => "after"@,
            },
    {
        match self {
            Direction::Before => "before",
            Direction::After => "after",
        }
    }
}

} // verus!
