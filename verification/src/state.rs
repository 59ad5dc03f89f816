//! The state of the controller and its transitions, as the contracts of the
//! controller speak of them.

use crate::api::Api;
use crate::buffer::band_set;
use crate::buffer::band_waits;
use crate::buffer::first_needed_in_band;
use crate::buffer::holds;
use crate::buffer::resolved;
use crate::buffer::resolved_band;
use crate::buffer::rows_in_order;
use crate::buffer::shown_count;
use crate::buffer::slot_of;
use crate::buffer::starved_band;
use crate::cached::CachedImgData;
use crate::cached::DispCtrlImgData;
use crate::cached::FetchedImage;
use crate::config::BUFFERED_ROWS;
use crate::config::NUM_ROWS;
use crate::config::ROW_STRIDE;
use crate::config::SINGLE_LOOP_MAX_LOAD;
use crate::cursor::AdjustedIndices;
use crate::cursor::Cursor;
use crate::input::Direction;
use crate::loading::LoadBudget;
use crate::row::ImageWidget;
use crate::row::SetRowView;
use crate::window::next_start;
use std::time::Instant;
use vstd::prelude::*;

verus! {

/// What the controller asks for next.
#[derive(Clone, Copy, Debug, PartialEq, Eq, Structural)]
pub enum Step {
    /// Load the image of item `true_item_idx` of set `true_set_idx`, and hand
    /// the outcome to `image_fetched`.
    Fetch { true_set_idx: usize, true_item_idx: usize },
    /// Nothing: the frame can be drawn.
    Done,
}

/// The state of the controller.
pub struct ControllerView {
    pub initialized: bool,
    /// The buffer of rows, by slot.
    pub rows: Seq<Option<SetRowView>>,
    pub ids: DispCtrlImgData,
    pub api: Api,
    /// The first set of the band on screen.
    pub band_start: nat,
    pub cursor: Cursor,
    pub budget: LoadBudget,
    /// The number of rows of the band that are shown.
    pub shown_rows: nat,
    /// The image that the controller has asked for and not got yet: its set
    /// and its true index.
    pub awaiting: Option<(nat, nat)>,
    /// Whether the frame shows the highlight.
    pub highlights: bool,
}

impl ControllerView {
    /// The row of set `true_set_idx`, where the buffer holds it.
    pub open spec fn row(self, true_set_idx: nat) -> SetRowView {
        self.rows[slot_of(true_set_idx)]->0
    }

    /// Whether the buffer holds the row of the cursor's set.
    pub open spec fn holds_cursor_row(self) -> bool {
        holds(self.rows, self.cursor.true_set_idx as nat)
    }

    /// Whether the cursor cannot step to the right: it is on the last item of
    /// its set or past it, or the buffer does not hold its row.
    pub open spec fn at_row_end(self) -> bool {
        !self.holds_cursor_row() || self.cursor.true_item_idx + 1 >= self.row(
            self.cursor.true_set_idx as nat,
        ).item_count()
    }

    /// The left edge of the window of the cursor's row; 0 where the buffer
    /// does not hold the row.
    pub open spec fn cursor_offset(self) -> nat {
        if holds(self.rows, self.cursor.true_set_idx as nat) {
            self.row(self.cursor.true_set_idx as nat).offset
        } else {
            0
        }
    }

    /// What always holds of the buffer and the cursor.
    ///
    /// The rows are in order, and no more images were loaded during the tick
    /// than its budget allows. The cursor is on a set of the catalogue and on
    /// an item inside the window of its row.
    pub open spec fn base(self) -> bool {
        &&& rows_in_order(self.rows, self.api)
        &&& self.budget.loads_this_tick <= SINGLE_LOOP_MAX_LOAD
        &&& self.api.num_of_sets() + NUM_ROWS <= usize::MAX
        &&& self.cursor.true_set_idx == 0 || self.cursor.true_set_idx < self.api.num_of_sets()
        &&& self.cursor.adjusted_item_idx < ROW_STRIDE
        &&& if holds(self.rows, self.cursor.true_set_idx as nat) {
            self.cursor_offset() <= self.cursor.true_item_idx < self.cursor_offset() + ROW_STRIDE
        } else {
            self.cursor.true_item_idx == self.cursor.adjusted_item_idx
        }
    }

    /// What holds between two updates, besides `base`.
    ///
    /// The cursor's slot and item agree, the band holds the cursor's set, and
    /// the buffer holds every row that is shown.
    pub open spec fn structure(self) -> bool {
        &&& self.base()
        &&& self.cursor.true_item_idx == self.cursor.adjusted_item_idx + self.cursor_offset()
        &&& self.band_start <= self.cursor.true_set_idx < self.band_start + NUM_ROWS
        &&& self.shown_rows == shown_count(self.band_start, self.api.num_of_sets())
        &&& forall|k: nat|
            k < self.shown_rows ==> holds(self.rows, #[trigger] band_set(self.band_start, k))
    }

    /// Whether the image that is awaited, if one is, is still wanted, and
    /// whether every shown item has an entry if none is.
    pub open spec fn settled(self) -> bool {
        match self.awaiting {
            Some((true_set_idx, true_item_idx)) => {
                &&& self.band_start <= true_set_idx < self.band_start + self.shown_rows
                &&& self.row(true_set_idx).needs_image(true_item_idx)
                &&& self.budget.can_load_more()
            },
            None => forall|k: nat|
                k < self.shown_rows ==> self.row(
                    #[trigger] band_set(self.band_start, k),
                ).window_cached(),
        }
    }

    /// The invariant of the controller.
    pub open spec fn inv(self) -> bool {
        self.structure() && self.settled()
    }

    /// What the controller asks for.
    pub open spec fn step(self) -> Step {
        match self.awaiting {
            Some((true_set_idx, true_item_idx)) => Step::Fetch {
                true_set_idx: true_set_idx as usize,
                true_item_idx: true_item_idx as usize,
            },
            None => Step::Done,
        }
    }

    /// The slot in which the cursor's item stands, where its row shows it.
    pub open spec fn highlighted_slot(self) -> Option<nat> {
        if holds(self.rows, self.cursor.true_set_idx as nat) && self.cursor_offset()
            <= self.cursor.true_item_idx < self.cursor_offset() + ROW_STRIDE {
            Some((self.cursor.true_item_idx - self.cursor_offset()) as nat)
        } else {
            None
        }
    }

    /// The state after the band was computed anew for the cursor and its rows
    /// were brought into the buffer: the first half of an update.
    pub open spec fn prepared(self) -> ControllerView {
        let band_start = next_start(self.band_start, self.cursor.true_set_idx as nat);
        let shown_rows = shown_count(band_start, self.api.num_of_sets());
        let shown = ControllerView {
            rows: resolved_band(self.rows, band_start, shown_rows, self.api),
            band_start,
            shown_rows,
            awaiting: None,
            ..self
        };
        match shown.highlighted_slot() {
            Some(slot) => ControllerView {
                cursor: Cursor { adjusted_item_idx: slot as usize, ..shown.cursor },
                ..shown
            },
            None => shown,
        }
    }

    /// The state after the shown rows were looked through for an image to
    /// load: the second half of an update.
    ///
    /// With budget left the first item without image is asked for, and nothing
    /// else changes. Without budget every shown item without entry gets a
    /// placeholder, and the budget records whether an image is waiting.
    pub open spec fn advanced(self) -> ControllerView {
        if self.budget.can_load_more() {
            ControllerView {
                awaiting: first_needed_in_band(self.rows, self.band_start, self.shown_rows, 0),
                ..self
            }
        } else {
            ControllerView {
                rows: starved_band(self.rows, self.band_start, self.shown_rows, self.ids),
                budget: LoadBudget {
                    needs_more: self.budget.needs_more || band_waits(
                        self.rows,
                        self.band_start,
                        self.shown_rows,
                    ),
                    ..self.budget
                },
                awaiting: None,
                ..self
            }
        }
    }

    /// The state after an update.
    pub open spec fn updated(self) -> ControllerView {
        (ControllerView { highlights: true, ..self.prepared() }).advanced()
    }

    /// The state after the first pass at start-up: an update that shows no
    /// highlight. A controller that is initialized stays as it is.
    pub open spec fn started(self) -> ControllerView {
        if self.initialized {
            self
        } else {
            (ControllerView { initialized: true, highlights: false, ..self.prepared() }).advanced()
        }
    }

    /// The state after the outcome `fetched` of the awaited load was stored
    /// at the time `at`, and charged to the budget.
    pub open spec fn stored(self, fetched: Option<FetchedImage>, at: Instant) -> ControllerView {
        match self.awaiting {
            Some((true_set_idx, true_item_idx)) => ControllerView {
                rows: self.rows.update(
                    slot_of(true_set_idx),
                    Some(
                        self.row(true_set_idx).stored(
                            true_item_idx,
                            CachedImgData::home_tile_or_not_found(fetched, self.ids),
                        ),
                    ),
                ),
                budget: LoadBudget {
                    loads_this_tick: self.budget.loads_this_tick + 1,
                    last_load_at: Some(at),
                    ..self.budget
                },
                awaiting: None,
                ..self
            },
            None => self,
        }
    }

    /// The state after the outcome of the awaited load was handed in: it is
    /// stored, and the shown rows are looked through again. Where no load is
    /// awaited nothing changes.
    pub open spec fn fetched(self, fetched: Option<FetchedImage>, at: Instant) -> ControllerView {
        if self.awaiting is Some {
            self.stored(fetched, at).advanced()
        } else {
            self
        }
    }

    /// The state with the cursor's row replaced by `row`.
    pub open spec fn with_cursor_row(self, row: SetRowView) -> ControllerView {
        ControllerView {
            rows: self.rows.update(slot_of(self.cursor.true_set_idx as nat), Some(row)),
            ..self
        }
    }

    /// The state after a step to the left. Nothing happens where the
    /// catalogue does not list the cursor's set.
    pub open spec fn moved_left(self) -> ControllerView {
        let true_set_idx = self.cursor.true_set_idx as nat;
        let resolved = ControllerView { rows: resolved(self.rows, true_set_idx, self.api), ..self };
        if holds(resolved.rows, true_set_idx) {
            let row = resolved.row(true_set_idx).shifted_left(self.cursor.adjusted_item_idx as nat);
            let true_item_idx = if self.cursor.true_item_idx > 0 {
                (self.cursor.true_item_idx - 1) as usize
            } else {
                0
            };
            (ControllerView {
                cursor: Cursor { true_item_idx, ..self.cursor },
                ..resolved.with_cursor_row(row)
            }).updated()
        } else {
            self
        }
    }

    /// The state after a step to the right. The cursor stays on the last item
    /// of its set, and nothing happens where the catalogue does not list the
    /// cursor's set.
    pub open spec fn moved_right(self) -> ControllerView {
        let true_set_idx = self.cursor.true_set_idx as nat;
        let resolved = ControllerView { rows: resolved(self.rows, true_set_idx, self.api), ..self };
        if holds(resolved.rows, true_set_idx) {
            let row = resolved.row(true_set_idx);
            let true_item_idx = if self.cursor.true_item_idx + 1 < row.item_count() {
                (self.cursor.true_item_idx + 1) as usize
            } else {
                self.cursor.true_item_idx
            };
            (ControllerView {
                cursor: Cursor { true_item_idx, ..self.cursor },
                ..resolved.with_cursor_row(
                    row.shifted_right(
                        self.cursor.adjusted_item_idx as nat,
                        self.cursor.true_item_idx as nat,
                    ),
                )
            }).updated()
        } else {
            self
        }
    }

    /// The state with the cursor on set `true_set_idx`, in the slot it was in:
    /// the set's row is brought into the buffer, and the cursor's item is the
    /// one that the row shows in that slot.
    pub open spec fn on_set(self, true_set_idx: nat) -> ControllerView {
        let rows = resolved(self.rows, true_set_idx, self.api);
        let true_item_idx = if holds(rows, true_set_idx) {
            (self.cursor.adjusted_item_idx + rows[slot_of(true_set_idx)]->0.offset) as usize
        } else {
            self.cursor.true_item_idx
        };
        ControllerView {
            rows,
            cursor: Cursor { true_set_idx: true_set_idx as usize, true_item_idx, ..self.cursor },
            ..self
        }
    }

    /// The state after a step up: to the set before, unless the cursor is on
    /// the first set.
    pub open spec fn moved_up(self) -> ControllerView {
        if self.cursor.true_set_idx > 0 {
            self.on_set((self.cursor.true_set_idx - 1) as nat).updated()
        } else {
            self.updated()
        }
    }

    /// The state after a step down: to the next set, unless the cursor is on
    /// the last set.
    pub open spec fn moved_down(self) -> ControllerView {
        if self.cursor.true_set_idx + 1 < self.api.num_of_sets() {
            self.on_set((self.cursor.true_set_idx + 1) as nat).updated()
        } else {
            self.updated()
        }
    }

    /// The image widgets of the frame: one for each slot of each shown row,
    /// row by row.
    pub open spec fn images(self) -> Seq<ImageWidget> {
        Seq::new(
            self.shown_rows * ROW_STRIDE as nat,
            |i: int|
                self.row(band_set(self.band_start, (i / ROW_STRIDE as int) as nat)).widget_at(
                    AdjustedIndices {
                        adjusted_set_idx: (i / ROW_STRIDE as int) as usize,
                        adjusted_item_idx: (i % ROW_STRIDE as int) as usize,
                    },
                ),
        )
    }

    /// The widget of the cursor's item, which the frame shows once more,
    /// enlarged, unless the frame is the first after start-up.
    pub open spec fn highlight(self) -> Option<ImageWidget> {
        if self.highlights && self.holds_cursor_row() {
            Some(
                self.row(self.cursor.true_set_idx as nat).widget_at(
                    AdjustedIndices {
                        adjusted_set_idx: (self.cursor.true_set_idx - self.band_start) as usize,
                        adjusted_item_idx: self.cursor.adjusted_item_idx,
                    },
                ),
            )
        } else {
            None
        }
    }

    /// The state after a step of the cursor.
    pub open spec fn moved(self, direction: Direction) -> ControllerView {
        match direction {
            Direction::Left => self.moved_left(),
            Direction::Right => self.moved_right(),
            Direction::Up => self.moved_up(),
            Direction::Down => self.moved_down(),
        }
    }

    /// The state after a tick, `elapsed_ms` milliseconds after the last load:
    /// where an image is waiting, the budget is reset if its cool-down is
    /// over, and the rows are updated.
    pub open spec fn ticked(self, elapsed_ms: nat) -> ControllerView {
        if self.budget.needs_more {
            (ControllerView { budget: self.budget.after_reset(elapsed_ms), ..self }).updated()
        } else {
            self
        }
    }
}

/// Between two updates the buffer holds the cursor's row, with an entry for
/// every item of its window, as soon as the catalogue lists a set.
pub proof fn lemma_cursor_row_is_shown(state: ControllerView)
    requires
        state.inv(),
        state.awaiting is None,
    ensures
        state.cursor.true_set_idx < state.api.num_of_sets() ==> state.holds_cursor_row()
            && state.row(state.cursor.true_set_idx as nat).window_cached(),
        state.holds_cursor_row() ==> state.cursor.true_set_idx < state.api.num_of_sets(),
{
    if state.cursor.true_set_idx < state.api.num_of_sets() {
        let k = (state.cursor.true_set_idx - state.band_start) as nat;
        assert(holds(state.rows, band_set(state.band_start, k)));
    }
}

/// Replacing the cursor's row by one with the same set leaves every other
/// row as it is, and the buffer holds the same sets.
pub proof fn lemma_cursor_row_replaced(state: ControllerView, row: SetRowView)
    requires
        state.rows.len() == BUFFERED_ROWS,
        row.true_set_idx == state.cursor.true_set_idx,
    ensures
        holds(state.with_cursor_row(row).rows, state.cursor.true_set_idx as nat),
        state.with_cursor_row(row).row(state.cursor.true_set_idx as nat) == row,
{
}

} // verus!
