//! The band of sets that is on screen.
//!
//! The band follows the cursor with some slack: a cursor on the second row of
//! the band leaves the band where it is, so that stepping back by one set
//! does not move every row.

use crate::config::NUM_ROWS;
use std::ops::Range;
use vstd::prelude::*;

verus! {

/// The first set of the band for a cursor on set `true_set_index`, where the
/// band began at `prev_start` before.
pub open spec fn next_start(prev_start: nat, true_set_index: nat) -> nat {
    if true_set_index == prev_start + 1 {
        prev_start
    } else if true_set_index + 2 > NUM_ROWS {
        (true_set_index + 2 - NUM_ROWS) as nat
    } else {
        0
    }
}

/// The band always holds the set of the cursor it was computed for.
pub proof fn lemma_band_holds_cursor(prev_start: nat, true_set_index: nat)
    ensures
        next_start(prev_start, true_set_index) <= true_set_index < next_start(
            prev_start,
            true_set_index,
        ) + NUM_ROWS,
{
}

/// Remembers the band between two updates.
pub struct VisibleWindowTracker {
    prev_visible_range: Range<usize>,
}

impl VisibleWindowTracker {
    #[verifier::type_invariant]
    spec fn inv(self) -> bool {
        self.prev_visible_range.end == self.prev_visible_range.start + NUM_ROWS
    }

    /// The first set of the band.
    pub closed spec fn start(&self) -> nat {
        self.prev_visible_range.start as nat
    }

    /// The band at start-up: the first `NUM_ROWS` sets.
    pub fn new() -> (tracker: Self)
        ensures
            tracker.start() == 0,
    {
        VisibleWindowTracker { prev_visible_range: 0..NUM_ROWS }
    }

    /// The band as it was last computed.
    pub fn range(&self) -> (range: Range<usize>)
        ensures
            range.start == self.start(),
            range.end == self.start() + NUM_ROWS,
    {
        proof {
            use_type_invariant(self);
        }
        self.prev_visible_range.start..self.prev_visible_range.end
    }

    /// The band for a cursor on set `true_set_index`: `NUM_ROWS` sets, the
    /// cursor's among them.
    pub fn visible_set_range(&mut self, true_set_index: usize) -> (range: Range<usize>)
        requires
            true_set_index + 2 <= usize::MAX,
        ensures
            final(self).start() == next_start(old(self).start(), true_set_index as nat),
            range.start == final(self).start(),
            range.end == final(self).start() + NUM_ROWS,
            range.start <= true_set_index < range.end,
    {
        proof {
            use_type_invariant(&*self);
        }
        if true_set_index > 0 && true_set_index - 1 == self.prev_visible_range.start {
            return self.prev_visible_range.start..self.prev_visible_range.end;
        }
        let new_range = if true_set_index + 2 > NUM_ROWS {
            let shift = (true_set_index + 2) - NUM_ROWS;
            shift..(shift + NUM_ROWS)
        } else {
            0..NUM_ROWS
        };
        self.prev_visible_range = new_range.start..new_range.end;
        new_range
    }
}

} // verus!
