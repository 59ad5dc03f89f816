//! What holds of the navigation whatever the catalogue and the keys: the
//! buffer answers a second request for a row from memory, the cursor does not
//! leave its set at the right end, a window moves by one item at most, and
//! going down and up again leads back.

use crate::api::Api;
use crate::cached::DispCtrlImgData;
use crate::cached::FetchedImage;
use crate::config::BUFFERED_ROWS;
use crate::config::NUM_ROWS;
use crate::buffer::band_set;
use crate::buffer::holds;
use crate::buffer::lemma_resolved_band;
use crate::buffer::resolution_of;
use crate::buffer::resolved;
use crate::buffer::resolved_band;
use crate::buffer::rows_in_slots;
use crate::buffer::same_windows;
use crate::buffer::shown_count;
use crate::buffer::slot_of;
use crate::buffer::starved_band;
use crate::buffer::windows_moved_by_one_at_most;
use crate::state::ControllerView;
use crate::buffer::Resolution;
use crate::cursor::Cursor;
use crate::input::Direction;
use crate::row::SetRowView;
use crate::window::lemma_band_holds_cursor;
use crate::window::next_start;
use std::time::Instant;
use vstd::prelude::*;

verus! {

/// A row that was asked for once is in the buffer: asking for it again finds
/// it there, brings nothing in, and leaves the buffer as it is.
pub proof fn lemma_resolving_twice_hits(rows: Seq<Option<SetRowView>>, true_set_idx: nat, api: Api)
    requires
        rows.len() == BUFFERED_ROWS,
    ensures
        resolution_of(rows, true_set_idx, api) != Resolution::Missing ==> resolution_of(
            resolved(rows, true_set_idx, api),
            true_set_idx,
            api,
        ) == Resolution::Hit,
        resolved(resolved(rows, true_set_idx, api), true_set_idx, api) == resolved(
            rows,
            true_set_idx,
            api,
        ),
{
}

/// A step to the right leaves the cursor on its item where that is the last
/// item of its set, or lies past it. Elsewhere it moves the cursor to the
/// next item.
pub proof fn lemma_right_stops_at_row_end(state: ControllerView)
    requires
        state.inv(),
    ensures
        state.at_row_end() ==> state.moved_right().cursor.true_item_idx
            == state.cursor.true_item_idx,
        !state.at_row_end() ==> state.moved_right().cursor.true_item_idx
            == state.cursor.true_item_idx + 1,
        state.moved_right().cursor.true_set_idx == state.cursor.true_set_idx,
{
    let true_set_idx = state.cursor.true_set_idx as nat;
    if true_set_idx < state.api.num_of_sets() {
        // The cursor's row is shown, so the buffer holds it.
        assert(band_set(state.band_start, (true_set_idx - state.band_start) as nat)
            == true_set_idx);
    }
}

/// An update moves the cursor to no other set and no other item.
pub proof fn lemma_update_keeps_cursor_item(state: ControllerView)
    ensures
        state.updated().cursor.true_set_idx == state.cursor.true_set_idx,
        state.updated().cursor.true_item_idx == state.cursor.true_item_idx,
        state.updated().band_start == next_start(state.band_start, state.cursor.true_set_idx as nat),
        state.updated().api == state.api,
{
}

/// The state after `n` steps down.
pub open spec fn stepped_down(state: ControllerView, n: nat) -> ControllerView
    decreases n,
{
    if n == 0 {
        state
    } else {
        stepped_down(state, (n - 1) as nat).moved_down()
    }
}

/// The state after `n` steps up.
pub open spec fn stepped_up(state: ControllerView, n: nat) -> ControllerView
    decreases n,
{
    if n == 0 {
        state
    } else {
        stepped_up(state, (n - 1) as nat).moved_up()
    }
}

/// `n` steps down lead `n` sets down, as long as the catalogue has that many
/// sets below the cursor.
pub proof fn lemma_steps_down(state: ControllerView, n: nat)
    requires
        state.cursor.true_set_idx + n < state.api.num_of_sets() <= usize::MAX,
    ensures
        stepped_down(state, n).cursor.true_set_idx == state.cursor.true_set_idx + n,
        stepped_down(state, n).api == state.api,
    decreases n,
{
    if n > 0 {
        lemma_steps_down(state, (n - 1) as nat);
        lemma_update_keeps_cursor_item(
            stepped_down(state, (n - 1) as nat).on_set((state.cursor.true_set_idx + n) as nat),
        );
    }
}

/// `n` steps up lead `n` sets up, as long as there are that many sets above
/// the cursor; after a step the band holds the cursor's set.
pub proof fn lemma_steps_up(state: ControllerView, n: nat)
    requires
        n <= state.cursor.true_set_idx,
    ensures
        stepped_up(state, n).cursor.true_set_idx == state.cursor.true_set_idx - n,
        n > 0 ==> stepped_up(state, n).band_start <= stepped_up(state, n).cursor.true_set_idx
            < stepped_up(state, n).band_start + NUM_ROWS,
    decreases n,
{
    if n > 0 {
        lemma_steps_up(state, (n - 1) as nat);
        let before = stepped_up(state, (n - 1) as nat);
        let on_set = before.on_set((before.cursor.true_set_idx - 1) as nat);
        lemma_update_keeps_cursor_item(on_set);
        lemma_band_holds_cursor(on_set.band_start, on_set.cursor.true_set_idx as nat);
    }
}

/// Going down `n` sets and up `n` sets again brings the cursor back to its
/// set, and the band on screen holds that set. The catalogue must have `n`
/// sets below the cursor: a step down from the last set goes nowhere.
pub proof fn lemma_down_then_up_returns(state: ControllerView, n: nat)
    requires
        state.inv(),
        state.cursor.true_set_idx + n < state.api.num_of_sets(),
    ensures
        stepped_up(stepped_down(state, n), n).cursor.true_set_idx == state.cursor.true_set_idx,
        stepped_up(stepped_down(state, n), n).band_start <= state.cursor.true_set_idx
            < stepped_up(stepped_down(state, n), n).band_start + NUM_ROWS,
{
    lemma_steps_down(state, n);
    lemma_steps_up(stepped_down(state, n), n);
}

/// Handing in the outcome of a load moves neither the cursor nor the band.
pub proof fn lemma_fetch_keeps_position(
    state: ControllerView,
    fetched: Option<FetchedImage>,
    at: Instant,
)
    ensures
        state.fetched(fetched, at).cursor == state.cursor,
        state.fetched(fetched, at).band_start == state.band_start,
{
}

/// Rows that are shown without budget keep their sets and their windows.
pub proof fn lemma_starved_band(
    rows: Seq<Option<SetRowView>>,
    band_start: nat,
    n: nat,
    ids: DispCtrlImgData,
)
    requires
        rows.len() == BUFFERED_ROWS,
    ensures
        same_windows(rows, starved_band(rows, band_start, n, ids)),
    decreases n,
{
    if n > 0 {
        lemma_starved_band(rows, band_start, (n - 1) as nat, ids);
    }
}

/// An update moves no window, and brings in rows of the band only.
pub proof fn lemma_update_keeps_windows(state: ControllerView)
    requires
        rows_in_slots(state.rows),
    ensures
        rows_in_slots(state.updated().rows),
        forall|true_set_idx: nat|
            holds(state.rows, true_set_idx) && #[trigger] holds(state.updated().rows, true_set_idx)
                ==> state.updated().row(true_set_idx).offset == state.row(true_set_idx).offset,
        forall|true_set_idx: nat|
            !holds(state.rows, true_set_idx) && #[trigger] holds(
                state.updated().rows,
                true_set_idx,
            ) ==> state.updated().band_start <= true_set_idx < state.updated().band_start
                + NUM_ROWS,
{
    let band_start = next_start(state.band_start, state.cursor.true_set_idx as nat);
    let shown_rows = shown_count(band_start, state.api.num_of_sets());
    let brought = resolved_band(state.rows, band_start, shown_rows, state.api);
    lemma_resolved_band(state.rows, band_start, shown_rows, state.api);
    let after = state.updated().rows;
    lemma_starved_band(brought, band_start, shown_rows, state.ids);
    assert forall|i: int| 0 <= i < BUFFERED_ROWS implies match #[trigger] after[i] {
        Some(row) => slot_of(row.true_set_idx) == i,
        None => true,
    } by {
        let was = brought[i];
    }
    assert forall|true_set_idx: nat|
        holds(state.rows, true_set_idx) && #[trigger] holds(
            after,
            true_set_idx,
        ) implies state.updated().row(true_set_idx).offset == state.row(true_set_idx).offset by {
        let i = slot_of(true_set_idx);
        let was = brought[i];
    }
    assert forall|true_set_idx: nat|
        !holds(state.rows, true_set_idx) && #[trigger] holds(
            after,
            true_set_idx,
        ) implies band_start <= true_set_idx < band_start + NUM_ROWS by {
        let i = slot_of(true_set_idx);
        let was = brought[i];
    }
}

/// Whether `turned` is `before` with the row of set `target` brought in or
/// its window moved by one item at most, and nothing else changed.
pub open spec fn only_target_turned(
    before: Seq<Option<SetRowView>>,
    turned: Seq<Option<SetRowView>>,
    target: nat,
) -> bool {
    &&& rows_in_slots(before)
    &&& rows_in_slots(turned)
    &&& forall|i: int| 0 <= i < BUFFERED_ROWS && i != slot_of(target) ==> turned[i] == before[i]
    &&& turned[slot_of(target)] == before[slot_of(target)] || holds(turned, target)
    &&& holds(before, target) && holds(turned, target) ==> {
        let was = before[slot_of(target)]->0.offset;
        let is = turned[slot_of(target)]->0.offset;
        is == was || is == was + 1 || is + 1 == was
    }
}

/// An update on the cursor's set, after that set's row was brought in or its
/// window moved by one item at most, leaves every window where it was or one
/// item beside.
pub proof fn lemma_turn_and_update(before: Seq<Option<SetRowView>>, turned: ControllerView)
    requires
        only_target_turned(before, turned.rows, turned.cursor.true_set_idx as nat),
    ensures
        windows_moved_by_one_at_most(before, turned.updated().rows),
{
    let target = turned.cursor.true_set_idx as nat;
    lemma_update_keeps_windows(turned);
    lemma_band_holds_cursor(turned.band_start, target);
}

/// A step to the left moves the window of a row by one item at most.
pub proof fn lemma_left_moves_windows_by_one_at_most(state: ControllerView)
    requires
        state.inv(),
    ensures
        windows_moved_by_one_at_most(state.rows, state.moved_left().rows),
{
    let cursor_set = state.cursor.true_set_idx as nat;
    let resolved = ControllerView { rows: resolved(state.rows, cursor_set, state.api), ..state };
    if holds(resolved.rows, cursor_set) {
        let row = resolved.row(cursor_set).shifted_left(state.cursor.adjusted_item_idx as nat);
        let true_item_idx = if state.cursor.true_item_idx > 0 {
            (state.cursor.true_item_idx - 1) as usize
        } else {
            0
        };
        let turned = ControllerView {
            cursor: Cursor { true_item_idx, ..state.cursor },
            ..resolved.with_cursor_row(row)
        };
        lemma_with_target_row(state.rows, resolved.rows, turned.rows, cursor_set, row);
        lemma_turn_and_update(state.rows, turned);
    }
}

/// A step to the right moves the window of a row by one item at most.
pub proof fn lemma_right_moves_windows_by_one_at_most(state: ControllerView)
    requires
        state.inv(),
    ensures
        windows_moved_by_one_at_most(state.rows, state.moved_right().rows),
{
    let cursor_set = state.cursor.true_set_idx as nat;
    let resolved = ControllerView { rows: resolved(state.rows, cursor_set, state.api), ..state };
    if holds(resolved.rows, cursor_set) {
        let row = resolved.row(cursor_set);
        let shifted = row.shifted_right(
            state.cursor.adjusted_item_idx as nat,
            state.cursor.true_item_idx as nat,
        );
        let true_item_idx = if state.cursor.true_item_idx + 1 < row.item_count() {
            (state.cursor.true_item_idx + 1) as usize
        } else {
            state.cursor.true_item_idx
        };
        let turned = ControllerView {
            cursor: Cursor { true_item_idx, ..state.cursor },
            ..resolved.with_cursor_row(shifted)
        };
        lemma_with_target_row(state.rows, resolved.rows, turned.rows, cursor_set, shifted);
        lemma_turn_and_update(state.rows, turned);
    }
}

/// A step up or down moves the window of a row by one item at most.
pub proof fn lemma_up_down_move_windows_by_one_at_most(state: ControllerView)
    requires
        state.inv(),
    ensures
        windows_moved_by_one_at_most(state.rows, state.moved_up().rows),
        windows_moved_by_one_at_most(state.rows, state.moved_down().rows),
{
    let cursor_set = state.cursor.true_set_idx as nat;
    if cursor_set > 0 {
        let target = (cursor_set - 1) as nat;
        let turned = state.on_set(target);
        lemma_with_target_row(
            state.rows,
            turned.rows,
            turned.rows,
            target,
            turned.rows[slot_of(target)]->0,
        );
        lemma_turn_and_update(state.rows, turned);
    } else {
        lemma_with_target_row(
            state.rows,
            state.rows,
            state.rows,
            cursor_set,
            state.rows[slot_of(cursor_set)]->0,
        );
        lemma_turn_and_update(state.rows, state);
    }
    if cursor_set + 1 < state.api.num_of_sets() {
        let target = cursor_set + 1;
        let turned = state.on_set(target);
        lemma_with_target_row(
            state.rows,
            turned.rows,
            turned.rows,
            target,
            turned.rows[slot_of(target)]->0,
        );
        lemma_turn_and_update(state.rows, turned);
    } else {
        lemma_with_target_row(
            state.rows,
            state.rows,
            state.rows,
            cursor_set,
            state.rows[slot_of(cursor_set)]->0,
        );
        lemma_turn_and_update(state.rows, state);
    }
}

/// Bringing in the row of set `target`, and then putting `row`, which shows
/// the same set in a window one item beside at most, in its place, turns the
/// target's row only.
pub proof fn lemma_with_target_row(
    before: Seq<Option<SetRowView>>,
    brought: Seq<Option<SetRowView>>,
    turned: Seq<Option<SetRowView>>,
    target: nat,
    row: SetRowView,
)
    requires
        rows_in_slots(before),
        brought == before || (!holds(before, target) && brought == before.update(
            slot_of(target),
            brought[slot_of(target)],
        ) && holds(brought, target)),
        turned == brought || (holds(brought, target) && turned == brought.update(
            slot_of(target),
            Some(row),
        ) && row.true_set_idx == target && ({
            let was = brought[slot_of(target)]->0.offset;
            row.offset == was || row.offset == was + 1 || row.offset + 1 == was
        })),
    ensures
        only_target_turned(before, turned, target),
{
}

/// A step of the cursor moves the window of a row by one item at most.
pub proof fn lemma_step_moves_windows_by_one_at_most(state: ControllerView, direction: Direction)
    requires
        state.inv(),
    ensures
        windows_moved_by_one_at_most(state.rows, state.moved(direction).rows),
{
    match direction {
        Direction::Left => lemma_left_moves_windows_by_one_at_most(state),
        Direction::Right => lemma_right_moves_windows_by_one_at_most(state),
        Direction::Up => lemma_up_down_move_windows_by_one_at_most(state),
        Direction::Down => lemma_up_down_move_windows_by_one_at_most(state),
    }
}

} // verus!
