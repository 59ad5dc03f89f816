//! The buffer of rows: a fixed number of slots, one for each set modulo the
//! number of slots. A set that is brought in takes the place of the set in
//! its slot, whatever that set is.

use crate::api::Api;
use crate::cached::DispCtrlImgData;
use crate::config::BUFFERED_ROWS;
use crate::config::NUM_ROWS;
use crate::row::SetRow;
use crate::row::SetRowView;
use vstd::prelude::*;

verus! {

/// How a row was found in the buffer.
#[derive(Clone, Copy, Debug, PartialEq, Eq, Structural)]
pub enum Resolution {
    /// The buffer held the row.
    Hit,
    /// The buffer did not hold the row; it was made from the catalogue and
    /// took the place of whatever stood in its slot.
    Fetched,
    /// The buffer did not hold the row, and the catalogue does not list it.
    Missing,
}

/// The slot of the buffer in which set `true_set_idx` is kept.
pub open spec fn slot_of(true_set_idx: nat) -> int {
    (true_set_idx % BUFFERED_ROWS as nat) as int
}

/// The states of the rows in a buffer.
pub open spec fn rows_view<'a>(rows: Seq<Option<SetRow<'a>>>) -> Seq<Option<SetRowView>> {
    Seq::new(
        rows.len(),
        |i: int|
            match rows[i] {
                Some(row) => Some(row@),
                None => None,
            },
    )
}

/// The set shown in row `k` of a band that begins with set `band_start`.
pub open spec fn band_set(band_start: nat, k: nat) -> nat {
    band_start + k
}

/// Whether the buffer holds set `true_set_idx`.
pub open spec fn holds(rows: Seq<Option<SetRowView>>, true_set_idx: nat) -> bool {
    match rows[slot_of(true_set_idx)] {
        Some(row) => row.true_set_idx == true_set_idx,
        None => false,
    }
}

/// How set `true_set_idx` is found in the buffer.
pub open spec fn resolution_of(rows: Seq<Option<SetRowView>>, true_set_idx: nat, api: Api) -> Resolution {
    if holds(rows, true_set_idx) {
        Resolution::Hit
    } else if true_set_idx < api.num_of_sets() {
        Resolution::Fetched
    } else {
        Resolution::Missing
    }
}

/// The buffer after set `true_set_idx` was asked for.
pub open spec fn resolved(rows: Seq<Option<SetRowView>>, true_set_idx: nat, api: Api) -> Seq<
    Option<SetRowView>,
> {
    if resolution_of(rows, true_set_idx, api) == Resolution::Fetched {
        rows.update(
            slot_of(true_set_idx),
            Some(SetRowView::fresh(api.set_entry(true_set_idx), true_set_idx)),
        )
    } else {
        rows
    }
}

/// The buffer after the first `n` sets from `band_start` on were asked for,
/// one after the other.
pub open spec fn resolved_band(
    rows: Seq<Option<SetRowView>>,
    band_start: nat,
    n: nat,
    api: Api,
) -> Seq<Option<SetRowView>>
    decreases n,
{
    if n == 0 {
        rows
    } else {
        resolved(
            resolved_band(rows, band_start, (n - 1) as nat, api),
            (band_start + n - 1) as nat,
            api,
        )
    }
}

/// Whether the buffer is in order: it has `BUFFERED_ROWS` slots, and every
/// row stands in its slot, comes from the catalogue, and has an entry for
/// each item left of its window.
pub open spec fn rows_in_order(rows: Seq<Option<SetRowView>>, api: Api) -> bool {
    &&& rows.len() == BUFFERED_ROWS
    &&& forall|i: int|
        0 <= i < BUFFERED_ROWS ==> match #[trigger] rows[i] {
            Some(row) => {
                &&& slot_of(row.true_set_idx) == i
                &&& row.true_set_idx < api.num_of_sets()
                &&& row.fits()
                &&& row.offset <= row.items.len()
            },
            None => true,
        }
}

/// Whether `after` differs from `before` only in rows of the band of `n`
/// sets from `band_start` on that `before` did not hold and that stand in
/// `after` as they are created.
pub open spec fn only_band_fetched(
    before: Seq<Option<SetRowView>>,
    after: Seq<Option<SetRowView>>,
    band_start: nat,
    n: nat,
    api: Api,
) -> bool {
    forall|i: int|
        0 <= i < BUFFERED_ROWS ==> #[trigger] after[i] == before[i] || match after[i] {
            Some(row) => {
                &&& band_start <= row.true_set_idx < band_start + n
                &&& !holds(before, row.true_set_idx)
                &&& row == SetRowView::fresh(api.set_entry(row.true_set_idx), row.true_set_idx)
            },
            None => false,
        }
}

/// Whether every row of the buffer stands in the slot of its set.
pub open spec fn rows_in_slots(rows: Seq<Option<SetRowView>>) -> bool {
    &&& rows.len() == BUFFERED_ROWS
    &&& forall|i: int|
        0 <= i < BUFFERED_ROWS ==> match #[trigger] rows[i] {
            Some(row) => slot_of(row.true_set_idx) == i,
            None => true,
        }
}

/// Bringing the rows of a band into the buffer changes the buffer only where
/// it brings a row in, and the buffer then holds every row of the band that
/// the catalogue lists.
pub proof fn lemma_resolved_band(rows: Seq<Option<SetRowView>>, band_start: nat, n: nat, api: Api)
    requires
        rows_in_slots(rows),
        n <= NUM_ROWS,
    ensures
        rows_in_slots(resolved_band(rows, band_start, n, api)),
        only_band_fetched(rows, resolved_band(rows, band_start, n, api), band_start, n, api),
        forall|k: nat|
            k < n && #[trigger] band_set(band_start, k) < api.num_of_sets() ==> holds(
                resolved_band(rows, band_start, n, api),
                band_set(band_start, k),
            ),
    decreases n,
{
    if n > 0 {
        lemma_resolved_band(rows, band_start, (n - 1) as nat, api);
    }
}

/// Whether the window of every row that both buffers hold lies in `after`
/// where it lies in `before`, or one item to the left or to the right of it.
pub open spec fn windows_moved_by_one_at_most(
    before: Seq<Option<SetRowView>>,
    after: Seq<Option<SetRowView>>,
) -> bool {
    forall|true_set_idx: nat|
        holds(before, true_set_idx) && #[trigger] holds(after, true_set_idx) ==> {
            let was = before[slot_of(true_set_idx)]->0.offset;
            let is = after[slot_of(true_set_idx)]->0.offset;
            is == was || is == was + 1 || is + 1 == was
        }
}

/// Whether the rows of `after` are those of `before`, each with its window
/// where it was and with no fewer cached images.
pub open spec fn same_windows(before: Seq<Option<SetRowView>>, after: Seq<Option<SetRowView>>) -> bool {
    &&& after.len() == before.len()
    &&& forall|i: int|
        0 <= i < before.len() ==> match #[trigger] before[i] {
            Some(row) => {
                &&& after[i] matches Some(grown)
                &&& grown.title == row.title
                &&& grown.entry == row.entry
                &&& grown.true_set_idx == row.true_set_idx
                &&& grown.offset == row.offset
                &&& grown.items.len() >= row.items.len()
            },
            None => after[i] is None,
        }
}

/// Rows that keep their windows and lose no cached image stay in order.
pub proof fn lemma_same_windows_in_order(
    before: Seq<Option<SetRowView>>,
    after: Seq<Option<SetRowView>>,
    api: Api,
)
    requires
        rows_in_order(before, api),
        same_windows(before, after),
    ensures
        rows_in_order(after, api),
        forall|true_set_idx: nat| holds(after, true_set_idx) == holds(before, true_set_idx),
{
    assert forall|i: int| 0 <= i < BUFFERED_ROWS implies match #[trigger] after[i] {
        Some(row) => {
            &&& slot_of(row.true_set_idx) == i
            &&& row.true_set_idx < api.num_of_sets()
            &&& row.fits()
            &&& row.offset <= row.items.len()
        },
        None => true,
    } by {
        let row = before[i];
    }
}

/// The number of sets of a band from `band_start` on that a catalogue of
/// `num_of_sets` sets lists.
pub open spec fn shown_count(band_start: nat, num_of_sets: nat) -> nat {
    if num_of_sets <= band_start {
        0
    } else if num_of_sets - band_start >= NUM_ROWS {
        NUM_ROWS as nat
    } else {
        (num_of_sets - band_start) as nat
    }
}

/// The buffer after each of the first `n` rows from `band_start` on was shown
/// during a tick without budget, one after the other.
pub open spec fn starved_band(
    rows: Seq<Option<SetRowView>>,
    band_start: nat,
    n: nat,
    ids: DispCtrlImgData,
) -> Seq<Option<SetRowView>>
    decreases n,
{
    if n == 0 {
        rows
    } else {
        let before = starved_band(rows, band_start, (n - 1) as nat, ids);
        let slot = slot_of((band_start + n - 1) as nat);
        match before[slot] {
            Some(row) => before.update(slot, Some(row.starved(ids))),
            None => before,
        }
    }
}

/// Whether one of the first `n` rows from `band_start` on shows an item
/// without image.
pub open spec fn band_waits(rows: Seq<Option<SetRowView>>, band_start: nat, n: nat) -> bool
    decreases n,
{
    if n == 0 {
        false
    } else {
        band_waits(rows, band_start, (n - 1) as nat) || match rows[slot_of(
            (band_start + n - 1) as nat,
        )] {
            Some(row) => row.first_needed(0) is Some,
            None => false,
        }
    }
}

/// The first item without image that the rows `from`, `from + 1`, ... of a
/// band of `n` rows show: its set and its true index.
pub open spec fn first_needed_in_band(
    rows: Seq<Option<SetRowView>>,
    band_start: nat,
    n: nat,
    from: nat,
) -> Option<(nat, nat)>
    decreases n - from,
{
    if from >= n {
        None
    } else {
        let needed = match rows[slot_of(band_start + from)] {
            Some(row) => row.first_needed(0),
            None => None,
        };
        match needed {
            Some(true_item_idx) => Some((band_start + from, true_item_idx)),
            None => first_needed_in_band(rows, band_start, n, from + 1),
        }
    }
}

} // verus!
