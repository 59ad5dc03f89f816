//! Positions on the grid: the highlighted item and the viewport slots.

use crate::config::NUM_ROWS;
use crate::config::ROW_STRIDE;
use vstd::prelude::*;

verus! {

/// A position in the viewport: the visible row, counted from the top, and the
/// slot within it, counted from the left.
#[derive(Clone, Copy, Debug, PartialEq, Eq, Structural)]
pub struct AdjustedIndices {
    pub adjusted_set_idx: usize,
    pub adjusted_item_idx: usize,
}

impl AdjustedIndices {
    /// Whether the position lies inside the viewport.
    pub open spec fn in_viewport(self) -> bool {
        self.adjusted_set_idx < NUM_ROWS && self.adjusted_item_idx < ROW_STRIDE
    }
}

/// The size of an image, in pixels of its source.
#[derive(Clone, Copy, Debug, PartialEq, Eq, Structural)]
pub struct Dimensions {
    pub w: u32,
    pub h: u32,
}

/// The highlighted item: its set and its item within the whole data, and the
/// viewport slot in which the item stands.
#[derive(Clone, Copy, Debug, PartialEq, Eq, Structural)]
pub struct Cursor {
    pub true_set_idx: usize,
    pub true_item_idx: usize,
    pub adjusted_item_idx: usize,
}

impl Default for Cursor {
    /// The cursor at start-up: the first item of the first set.
    fn default() -> (cursor: Self)
        ensures
            cursor == (Cursor { true_set_idx: 0, true_item_idx: 0, adjusted_item_idx: 0 }),
    {
        Cursor { true_set_idx: 0, true_item_idx: 0, adjusted_item_idx: 0 }
    }
}

/// The viewport slot of a position: the slots of one visible row are adjacent.
pub open spec fn img_idx(adjusted_item_idx: nat, adjusted_set_idx: nat) -> nat {
    adjusted_set_idx * (ROW_STRIDE as nat) + adjusted_item_idx
}

/// Computes `img_idx`.
pub fn get_img_idx(adjusted_item_idx: usize, adjusted_set_idx: usize) -> (slot: usize)
    requires
        adjusted_item_idx < ROW_STRIDE,
        adjusted_set_idx < NUM_ROWS,
    ensures
        slot == img_idx(adjusted_item_idx as nat, adjusted_set_idx as nat),
{
    adjusted_set_idx * ROW_STRIDE + adjusted_item_idx
}

} // verus!
