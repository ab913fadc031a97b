//! A rectangle of terminal cells.

use vstd::prelude::*;

verus! {

/// A rectangle of terminal cells: its upper left corner and its size.
#[derive(Debug, Clone, Copy, PartialEq, Eq, Structural)]
pub struct Rect {
    pub x: u16,
    pub y: u16,
    pub width: u16,
    pub height: u16,
}

} // verus!
