//! The navigation state: which item is highlighted, which sets are on screen,
//! which rows are kept in memory, and how far the loading of their images has
//! come.
//!
//! The controller never loads an image itself. Where an image is to be loaded
//! it says so with `Step::Fetch`, and goes on when the outcome is handed to
//! `image_fetched`.

use crate::api::Api;
use crate::buffer::band_set;
use crate::buffer::band_waits;
use crate::buffer::first_needed_in_band;
use crate::buffer::holds;
use crate::buffer::lemma_resolved_band;
use crate::buffer::lemma_same_windows_in_order;
use crate::buffer::only_band_fetched;
use crate::buffer::resolution_of;
use crate::buffer::resolved;
use crate::buffer::resolved_band;
use crate::buffer::rows_in_order;
use crate::buffer::rows_view;
use crate::buffer::same_windows;
use crate::buffer::shown_count;
use crate::buffer::slot_of;
use crate::buffer::windows_moved_by_one_at_most;
use crate::buffer::starved_band;
use crate::buffer::Resolution;
use crate::cached::DispCtrlImgData;
use crate::cached::FetchedImage;
use crate::config::BUFFERED_ROWS;
use crate::config::ITEM_LOADING_LOOP_THRESHOLD;
use crate::config::NUM_ROWS;
use crate::config::ROW_STRIDE;
use crate::cursor::AdjustedIndices;
use crate::cursor::Cursor;
use crate::input::Direction;
use crate::laws::lemma_left_moves_windows_by_one_at_most;
use crate::laws::lemma_right_moves_windows_by_one_at_most;
use crate::laws::lemma_right_stops_at_row_end;
use crate::laws::lemma_up_down_move_windows_by_one_at_most;
use crate::loading::ImgLoadingNotifier;
use crate::loading::LoadBudget;
use crate::row::lemma_first_needed;
use crate::row::lemma_nothing_needed_is_cached;
use crate::row::ImageWidget;
use crate::row::SetRow;
use crate::row::SetRowView;
use crate::row::TitleWidget;
use crate::state::lemma_cursor_row_is_shown;
use crate::state::lemma_cursor_row_replaced;
use crate::state::ControllerView;
use crate::state::Step;
use crate::window::VisibleWindowTracker;
use std::ops::Range;
use std::time::Instant;
use vstd::prelude::*;

verus! {

/// What is to be drawn: the images of the shown rows, slot by slot, the
/// titles of the rows, and at last the highlighted image, on top.
pub struct Frame<'a> {
    pub images: Vec<ImageWidget>,
    pub titles: Vec<TitleWidget<'a>>,
    pub highlighted: Option<ImageWidget>,
}

/// Main structure controlling what is displayed: it interprets the
/// navigation commands and keeps the rows and their images.
pub struct DisplayController<'a> {
    initialized: bool,
    rows: Vec<Option<SetRow<'a>>>,
    disp_ctrl_img_data: DispCtrlImgData,
    api_handle: &'a Api,
    prev_visible_range: VisibleWindowTracker,
    cursor: Cursor,
    img_load_pending: ImgLoadingNotifier,
    shown_rows: usize,
    awaiting: Option<(usize, usize)>,
    highlights: bool,
}

impl<'a> View for DisplayController<'a> {
    type V = ControllerView;

    closed spec fn view(&self) -> ControllerView {
        ControllerView {
            initialized: self.initialized,
            rows: rows_view(self.rows@),
            ids: self.disp_ctrl_img_data,
            api: *self.api_handle,
            band_start: self.prev_visible_range.start(),
            cursor: self.cursor,
            budget: self.img_load_pending@,
            shown_rows: self.shown_rows as nat,
            awaiting: match self.awaiting {
                Some((true_set_idx, true_item_idx)) => Some(
                    (true_set_idx as nat, true_item_idx as nat),
                ),
                None => None,
            },
            highlights: self.highlights,
        }
    }
}

impl<'a> DisplayController<'a> {
    /// Looks up set `true_set_idx` in the buffer, and brings it in from the
    /// catalogue if the buffer does not hold it.
    ///
    /// A set has one slot, `true_set_idx % BUFFERED_ROWS`. A set that is
    /// brought in replaces the set in its slot, with all that was cached for it.
    pub fn fetch_row(
        rows: &mut Vec<Option<SetRow<'a>>>,
        true_set_idx: usize,
        api_handle: &'a Api,
    ) -> (resolution: Resolution)
        requires
            old(rows)@.len() == BUFFERED_ROWS,
        ensures
            final(rows)@.len() == BUFFERED_ROWS,
            resolution == resolution_of(rows_view(old(rows)@), true_set_idx as nat, *api_handle),
            rows_view(final(rows)@) == resolved(
                rows_view(old(rows)@),
                true_set_idx as nat,
                *api_handle,
            ),
            resolution != Resolution::Fetched ==> final(rows)@ == old(rows)@,
            forall|i: int|
                0 <= i < BUFFERED_ROWS && i != slot_of(true_set_idx as nat) ==> final(rows)@[i]
                    == old(rows)@[i],
    {
        let slot = true_set_idx % BUFFERED_ROWS;
        let hit = match &rows[slot] {
            Some(row) => row.true_set_idx() == true_set_idx,
            None => false,
        };
        if hit {
            return Resolution::Hit;
        }
        match api_handle.get_set(true_set_idx) {
            Some(row_data) => {
                let set_row = SetRow::new(row_data, true_set_idx);
                rows[slot] = Some(set_row);
                Resolution::Fetched
            },
            None => Resolution::Missing,
        }
    }

    /// A controller at start-up: an empty buffer, the cursor on the first item
    /// of the first set, and a first round of loading due.
    pub fn new(api_handle: &'a Api, disp_ctrl_img_data: DispCtrlImgData) -> (controller: Self)
        ensures
            controller@ == (ControllerView {
                initialized: false,
                rows: Seq::new(BUFFERED_ROWS as nat, |i: int| None::<SetRowView>),
                ids: disp_ctrl_img_data,
                api: *api_handle,
                band_start: 0,
                cursor: Cursor { true_set_idx: 0, true_item_idx: 0, adjusted_item_idx: 0 },
                budget: LoadBudget { needs_more: true, ..LoadBudget::cleared() },
                shown_rows: 0,
                awaiting: None,
                highlights: false,
            }),
            controller@.base(),
    {
        let mut rows: Vec<Option<SetRow<'a>>> = Vec::new();
        let mut i: usize = 0;
        while i < BUFFERED_ROWS
            invariant
                i <= BUFFERED_ROWS,
                rows@.len() == i,
                forall|j: int| 0 <= j < i ==> rows@[j] is None,
            decreases BUFFERED_ROWS - i,
        {
            rows.push(None);
            i += 1;
        }
        proof {
            use_type_invariant(api_handle);
        }
        let controller = DisplayController {
            initialized: false,
            rows,
            disp_ctrl_img_data,
            api_handle,
            prev_visible_range: VisibleWindowTracker::new(),
            cursor: Cursor::default(),
            img_load_pending: ImgLoadingNotifier::new(),
            shown_rows: 0,
            awaiting: None,
            highlights: false,
        };
        assert(controller@.rows == Seq::new(BUFFERED_ROWS as nat, |i: int| None::<SetRowView>));
        controller
    }

    /// Brings the rows of the band from `band_start` on into the buffer, in
    /// order, up to the first that the catalogue does not list. Gives the
    /// number of rows brought in.
    fn fetch_band(rows: &mut Vec<Option<SetRow<'a>>>, band_start: usize, api_handle: &'a Api) -> (shown:
        usize)
        requires
            rows_in_order(rows_view(old(rows)@), *api_handle),
            band_start + NUM_ROWS <= usize::MAX,
        ensures
            shown == shown_count(band_start as nat, api_handle.num_of_sets()),
            rows_view(final(rows)@) == resolved_band(
                rows_view(old(rows)@),
                band_start as nat,
                shown as nat,
                *api_handle,
            ),
            rows_in_order(rows_view(final(rows)@), *api_handle),
            forall|k: nat|
                k < shown ==> holds(
                    rows_view(final(rows)@),
                    #[trigger] band_set(band_start as nat, k),
                ),
            only_band_fetched(
                rows_view(old(rows)@),
                rows_view(final(rows)@),
                band_start as nat,
                shown as nat,
                *api_handle,
            ),
    {
        let ghost before = rows_view(rows@);
        let ghost count = api_handle.num_of_sets();
        let mut k: usize = 0;
        let mut more = true;
        while more && k < NUM_ROWS
            invariant
                k <= NUM_ROWS,
                band_start + NUM_ROWS <= usize::MAX,
                count == api_handle.num_of_sets(),
                rows_in_order(rows_view(rows@), *api_handle),
                rows_view(rows@) == resolved_band(before, band_start as nat, k as nat, *api_handle),
                k <= shown_count(band_start as nat, count),
                !more ==> k == shown_count(band_start as nat, count),
            decreases (if more { 1nat } else { 0nat }) + NUM_ROWS - k,
        {
            let true_set_idx = band_start + k;
            match Self::fetch_row(rows, true_set_idx, api_handle) {
                Resolution::Missing => {
                    more = false;
                },
                _ => {
                    k += 1;
                },
            }
        }
        proof {
            lemma_resolved_band(before, band_start as nat, k as nat, *api_handle);
        }
        k
    }

    /// The first half of an update: computes the band for the cursor, brings
    /// its rows into the buffer, and finds the slot of the cursor's item.
    fn prepare(&mut self)
        requires
            old(self)@.base(),
        ensures
            final(self)@ == old(self)@.prepared(),
            final(self)@.structure(),
    {
        let range = self.prev_visible_range.visible_set_range(self.cursor.true_set_idx);
        let shown = Self::fetch_band(&mut self.rows, range.start, self.api_handle);
        self.shown_rows = shown;
        self.awaiting = None;
        let slot = self.cursor.true_set_idx % BUFFERED_ROWS;
        let offset = match &self.rows[slot] {
            Some(row) => {
                if row.true_set_idx() == self.cursor.true_set_idx {
                    Some(row.left_right_idx_adjustment())
                } else {
                    None
                }
            },
            None => None,
        };
        match offset {
            Some(offset) => {
                if offset <= self.cursor.true_item_idx && self.cursor.true_item_idx - offset
                    < ROW_STRIDE {
                    self.cursor.adjusted_item_idx = self.cursor.true_item_idx - offset;
                }
            },
            None => {},
        }
    }

    /// Looks through the first `shown` rows of the band from `band_start` on
    /// for an image to load now, and gives its set and its true index.
    fn populate_band(
        rows: &mut Vec<Option<SetRow<'a>>>,
        band_start: usize,
        shown: usize,
        ids: &DispCtrlImgData,
        img_load_pending: &mut ImgLoadingNotifier,
    ) -> (needed: Option<(usize, usize)>)
        requires
            old(rows)@.len() == BUFFERED_ROWS,
            shown <= NUM_ROWS,
            band_start + NUM_ROWS <= usize::MAX,
            forall|k: nat|
                k < shown ==> {
                    &&& holds(rows_view(old(rows)@), #[trigger] band_set(band_start as nat, k))
                    &&& rows_view(old(rows)@)[slot_of(band_set(band_start as nat, k))]->0.fits()
                    &&& rows_view(old(rows)@)[slot_of(band_set(band_start as nat, k))]->0.offset
                        <= rows_view(old(rows)@)[slot_of(
                        band_set(band_start as nat, k),
                    )]->0.items.len()
                },
        ensures
            same_windows(rows_view(old(rows)@), rows_view(final(rows)@)),
            match needed {
                Some((true_set_idx, true_item_idx)) => {
                    &&& old(img_load_pending)@.can_load_more()
                    &&& first_needed_in_band(
                        rows_view(old(rows)@),
                        band_start as nat,
                        shown as nat,
                        0,
                    ) == Some((true_set_idx as nat, true_item_idx as nat))
                    &&& band_start <= true_set_idx < band_start + shown
                    &&& rows_view(final(rows)@)[slot_of(true_set_idx as nat)]->0.needs_image(
                        true_item_idx as nat,
                    )
                },
                None => {
                    &&& old(img_load_pending)@.can_load_more() ==> first_needed_in_band(
                        rows_view(old(rows)@),
                        band_start as nat,
                        shown as nat,
                        0,
                    ) is None
                    &&& forall|k: nat|
                        k < shown ==> rows_view(final(rows)@)[slot_of(
                            #[trigger] band_set(band_start as nat, k),
                        )]->0.window_cached()
                },
            },
            old(img_load_pending)@.can_load_more() ==> {
                &&& rows_view(final(rows)@) == rows_view(old(rows)@)
                &&& final(img_load_pending)@ == old(img_load_pending)@
            },
            !old(img_load_pending)@.can_load_more() ==> {
                &&& rows_view(final(rows)@) == starved_band(
                    rows_view(old(rows)@),
                    band_start as nat,
                    shown as nat,
                    *ids,
                )
                &&& final(img_load_pending)@ == (LoadBudget {
                    needs_more: old(img_load_pending)@.needs_more || band_waits(
                        rows_view(old(rows)@),
                        band_start as nat,
                        shown as nat,
                    ),
                    ..old(img_load_pending)@
                })
            },
    {
        let ghost before = rows_view(rows@);
        let ghost budget = img_load_pending@;
        let ghost band = band_start as nat;
        let mut k: usize = 0;
        while k < shown
            invariant
                k <= shown <= NUM_ROWS,
                band == band_start,
                band_start + NUM_ROWS <= usize::MAX,
                rows@.len() == BUFFERED_ROWS,
                before == rows_view(old(rows)@),
                budget == old(img_load_pending)@,
                same_windows(before, rows_view(rows@)),
                forall|j: nat|
                    j < shown ==> {
                        &&& holds(before, #[trigger] band_set(band, j))
                        &&& before[slot_of(band_set(band, j))]->0.fits()
                        &&& before[slot_of(band_set(band, j))]->0.offset <= before[slot_of(
                            band_set(band, j),
                        )]->0.items.len()
                    },
                forall|j: nat|
                    k <= j < shown ==> rows_view(rows@)[slot_of(#[trigger] band_set(band, j))]
                        == before[slot_of(band_set(band, j))],
                forall|j: nat|
                    j < k ==> rows_view(rows@)[slot_of(
                        #[trigger] band_set(band, j),
                    )]->0.window_cached(),
                budget.can_load_more() ==> {
                    &&& rows_view(rows@) == before
                    &&& img_load_pending@ == budget
                    &&& first_needed_in_band(before, band, shown as nat, 0) == first_needed_in_band(
                        before,
                        band,
                        shown as nat,
                        k as nat,
                    )
                },
                !budget.can_load_more() ==> {
                    &&& rows_view(rows@) == starved_band(before, band, k as nat, *ids)
                    &&& img_load_pending@ == (LoadBudget {
                        needs_more: budget.needs_more || band_waits(before, band, k as nat),
                        ..budget
                    })
                },
            decreases shown - k,
        {
            let true_set_idx = band_start + k;
            let slot = true_set_idx % BUFFERED_ROWS;
            proof {
                assert(holds(before, band_set(band, k as nat)));
            }
            let needed = match &mut rows[slot] {
                Some(row) => row.populate_row(ids, img_load_pending),
                None => None,
            };
            proof {
                let row_before = before[slot as int]->0;
                if needed is None {
                    if budget.can_load_more() {
                        lemma_nothing_needed_is_cached(row_before);
                    }
                } else {
                    lemma_first_needed(row_before, 0);
                }
            }
            match needed {
                Some(true_item_idx) => {
                    return Some((true_set_idx, true_item_idx));
                },
                None => {},
            }
            k += 1;
        }
        None
    }

    /// The second half of an update: looks through the shown rows for an
    /// image to load now.
    fn advance(&mut self) -> (step: Step)
        requires
            old(self)@.structure(),
            old(self)@.awaiting is None,
        ensures
            final(self)@ == old(self)@.advanced(),
            final(self)@.inv(),
            step == final(self)@.step(),
    {
        let band_start = self.prev_visible_range.range().start;
        let ghost before = self@;
        let needed = Self::populate_band(
            &mut self.rows,
            band_start,
            self.shown_rows,
            &self.disp_ctrl_img_data,
            &mut self.img_load_pending,
        );
        self.awaiting = needed;
        proof {
            let after = self@;
            lemma_same_windows_in_order(before.rows, after.rows, after.api);
        }
        match needed {
            Some((true_set_idx, true_item_idx)) => Step::Fetch { true_set_idx, true_item_idx },
            None => Step::Done,
        }
    }

    /// Brings the display up to date with the cursor: computes the band of
    /// sets on screen, brings its rows into the buffer, and looks through
    /// them for an image to load now.
    pub fn update_image_widgets(&mut self) -> (step: Step)
        requires
            old(self)@.base(),
        ensures
            final(self)@ == old(self)@.updated(),
            final(self)@.inv(),
            step == final(self)@.step(),
    {
        self.prepare();
        self.highlights = true;
        self.advance()
    }

    /// The first pass at start-up: as an update, without highlight. Does
    /// nothing on a controller that is initialized.
    pub fn initialize(&mut self) -> (step: Step)
        requires
            old(self)@.base(),
        ensures
            final(self)@ == old(self)@.started(),
            !old(self)@.initialized ==> final(self)@.inv(),
            step == final(self)@.step(),
    {
        if self.initialized {
            return self.current_step();
        }
        self.initialized = true;
        self.prepare();
        self.highlights = false;
        self.advance()
    }

    /// What the controller asks for.
    pub fn current_step(&self) -> (step: Step)
        ensures
            step == self@.step(),
    {
        match self.awaiting {
            Some((true_set_idx, true_item_idx)) => Step::Fetch { true_set_idx, true_item_idx },
            None => Step::Done,
        }
    }

    /// Takes the outcome of the load that the controller asked for: the image
    /// as the renderer knows it, or `None` where loading failed. The outcome
    /// is stored and charged to the tick's budget, and the shown rows are
    /// looked through again.
    ///
    /// Where no load is awaited nothing changes.
    pub fn image_fetched(&mut self, fetched: Option<FetchedImage>) -> (step: Step)
        requires
            old(self)@.inv(),
        ensures
            exists|at: Instant| final(self)@ == old(self)@.fetched(fetched, at),
            final(self)@.inv(),
            step == final(self)@.step(),
    {
        let ghost before = self@;
        match self.awaiting {
            None => Step::Done,
            Some((true_set_idx, true_item_idx)) => {
                let slot = true_set_idx % BUFFERED_ROWS;
                proof {
                    assert(holds(
                        before.rows,
                        band_set(before.band_start, (true_set_idx - before.band_start) as nat),
                    ));
                }
                match &mut self.rows[slot] {
                    Some(row) => {
                        row.store_fetched(
                            true_item_idx,
                            fetched,
                            &self.disp_ctrl_img_data,
                            &mut self.img_load_pending,
                        );
                    },
                    None => {},
                }
                self.awaiting = None;
                let ghost stored = self@;
                proof {
                    let at = stored.budget.last_load_at->0;
                    assert(stored.rows == before.stored(fetched, at).rows);
                }
                let step = self.advance();
                proof {
                    let at = stored.budget.last_load_at->0;
                    assert(self@ == before.fetched(fetched, at));
                }
                step
            },
        }
    }

    /// Moves the cursor one item to the left, and updates the display.
    ///
    /// The window of the cursor's row follows where the cursor stands in one
    /// of its first two slots. The cursor stays on the first item.
    pub fn move_current_set_left(&mut self) -> (step: Step)
        requires
            old(self)@.inv(),
            old(self)@.awaiting is None,
        ensures
            final(self)@ == old(self)@.moved_left(),
            final(self)@.inv(),
            step == final(self)@.step(),
            windows_moved_by_one_at_most(old(self)@.rows, final(self)@.rows),
    {
        let ghost before = self@;
        proof {
            lemma_left_moves_windows_by_one_at_most(before);
        }
        let true_set_idx = self.cursor.true_set_idx;
        let slot = true_set_idx % BUFFERED_ROWS;
        match Self::fetch_row(&mut self.rows, true_set_idx, self.api_handle) {
            Resolution::Missing => {
                return self.current_step();
            },
            _ => {},
        }
        proof {
            lemma_cursor_row_is_shown(before);
        }
        match &mut self.rows[slot] {
            Some(cur_row_data) => {
                cur_row_data.shift_left(self.cursor.adjusted_item_idx);
            },
            None => {},
        }
        if self.cursor.true_item_idx > 0 {
            self.cursor.true_item_idx -= 1;
        }
        proof {
            let shifted = self@;
            let row = before.row(true_set_idx as nat).shifted_left(
                before.cursor.adjusted_item_idx as nat,
            );
            assert(shifted.rows == before.with_cursor_row(row).rows);
            lemma_cursor_row_replaced(before, row);
        }
        self.update_image_widgets()
    }

    /// Moves the cursor one item to the right, and updates the display.
    ///
    /// The window of the cursor's row follows where the cursor stands in one
    /// of its last slots. The cursor stays on the last item of the set.
    pub fn move_current_set_right(&mut self) -> (step: Step)
        requires
            old(self)@.inv(),
            old(self)@.awaiting is None,
        ensures
            final(self)@ == old(self)@.moved_right(),
            final(self)@.inv(),
            step == final(self)@.step(),
            windows_moved_by_one_at_most(old(self)@.rows, final(self)@.rows),
            old(self)@.at_row_end() ==> final(self)@.cursor.true_item_idx == old(
                self,
            )@.cursor.true_item_idx,
    {
        let ghost before = self@;
        proof {
            lemma_right_moves_windows_by_one_at_most(before);
            lemma_right_stops_at_row_end(before);
            lemma_cursor_row_is_shown(before);
        }
        let true_set_idx = self.cursor.true_set_idx;
        let slot = true_set_idx % BUFFERED_ROWS;
        match Self::fetch_row(&mut self.rows, true_set_idx, self.api_handle) {
            Resolution::Missing => {
                return self.current_step();
            },
            _ => {},
        }
        let moved = match &mut self.rows[slot] {
            Some(cur_row_data) => cur_row_data.shift_right(
                self.cursor.adjusted_item_idx,
                self.cursor.true_item_idx,
            ),
            None => false,
        };
        if moved {
            self.cursor.true_item_idx += 1;
        }
        proof {
            let shifted = self@;
            let row = before.row(true_set_idx as nat).shifted_right(
                before.cursor.adjusted_item_idx as nat,
                before.cursor.true_item_idx as nat,
            );
            assert(shifted.rows == before.with_cursor_row(row).rows);
            lemma_cursor_row_replaced(before, row);
        }
        self.update_image_widgets()
    }

    /// Puts the cursor on set `true_set_idx`, in the slot it was in.
    fn go_to_set(&mut self, true_set_idx: usize)
        requires
            old(self)@.inv(),
            true_set_idx < old(self)@.api.num_of_sets(),
        ensures
            final(self)@ == old(self)@.on_set(true_set_idx as nat),
            final(self)@.base(),
    {
        self.cursor.true_set_idx = true_set_idx;
        let slot = true_set_idx % BUFFERED_ROWS;
        match Self::fetch_row(&mut self.rows, true_set_idx, self.api_handle) {
            Resolution::Missing => {},
            _ => {
                match &self.rows[slot] {
                    Some(cur_row_data) => {
                        self.cursor.true_item_idx = self.cursor.adjusted_item_idx
                            + cur_row_data.left_right_idx_adjustment();
                    },
                    None => {},
                }
            },
        }
    }

    /// Moves the cursor to the set before, and updates the display. The
    /// cursor stays on the first set.
    pub fn move_to_prev_set(&mut self) -> (step: Step)
        requires
            old(self)@.inv(),
            old(self)@.awaiting is None,
        ensures
            final(self)@ == old(self)@.moved_up(),
            final(self)@.inv(),
            step == final(self)@.step(),
            windows_moved_by_one_at_most(old(self)@.rows, final(self)@.rows),
    {
        proof {
            lemma_up_down_move_windows_by_one_at_most(self@);
        }
        if self.cursor.true_set_idx > 0 {
            self.go_to_set(self.cursor.true_set_idx - 1);
        }
        self.update_image_widgets()
    }

    /// Moves the cursor to the next set, and updates the display. The cursor
    /// stays on the last set of the catalogue.
    pub fn move_to_next_set(&mut self) -> (step: Step)
        requires
            old(self)@.inv(),
            old(self)@.awaiting is None,
        ensures
            final(self)@ == old(self)@.moved_down(),
            final(self)@.inv(),
            step == final(self)@.step(),
            windows_moved_by_one_at_most(old(self)@.rows, final(self)@.rows),
    {
        proof {
            lemma_up_down_move_windows_by_one_at_most(self@);
        }
        let count = self.api_handle.row_count();
        if self.cursor.true_set_idx < count && self.cursor.true_set_idx + 1 < count {
            self.go_to_set(self.cursor.true_set_idx + 1);
        }
        self.update_image_widgets()
    }

    /// Moves the cursor one step, and updates the display.
    pub fn navigate(&mut self, direction: Direction) -> (step: Step)
        requires
            old(self)@.inv(),
            old(self)@.awaiting is None,
        ensures
            final(self)@ == old(self)@.moved(direction),
            final(self)@.inv(),
            step == final(self)@.step(),
            windows_moved_by_one_at_most(old(self)@.rows, final(self)@.rows),
    {
        match direction {
            Direction::Left => self.move_current_set_left(),
            Direction::Right => self.move_current_set_right(),
            Direction::Up => self.move_to_prev_set(),
            Direction::Down => self.move_to_next_set(),
        }
    }

    /// The frame to draw once nothing is awaited.
    pub fn frame(&self) -> (frame: Frame<'a>)
        requires
            self@.inv(),
            self@.awaiting is None,
        ensures
            frame.images@ == self@.images(),
            frame.titles@.len() == self@.shown_rows,
            forall|k: int|
                0 <= k < self@.shown_rows ==> {
                    &&& (#[trigger] frame.titles@[k]).title@ == self@.row(
                        band_set(self@.band_start, k as nat),
                    ).title
                    &&& frame.titles@[k].above_slot == ROW_STRIDE * k
                    &&& frame.titles@[k].title_slot == band_set(self@.band_start, k as nat)
                        % NUM_ROWS as nat
                },
            frame.highlighted == self@.highlight(),
    {
        let band_start = self.prev_visible_range.range().start;
        let mut images: Vec<ImageWidget> = Vec::new();
        let mut titles: Vec<TitleWidget<'a>> = Vec::new();
        let mut adjusted_set_idx: usize = 0;
        while adjusted_set_idx < self.shown_rows
            invariant
                self@.inv(),
                self@.awaiting is None,
                band_start == self@.band_start,
                band_start + NUM_ROWS <= usize::MAX,
                adjusted_set_idx <= self.shown_rows == self@.shown_rows <= NUM_ROWS,
                images@.len() == adjusted_set_idx * ROW_STRIDE,
                forall|i: int| 0 <= i < images@.len() ==> images@[i] == self@.images()[i],
                titles@.len() == adjusted_set_idx,
                forall|k: int|
                    0 <= k < adjusted_set_idx ==> {
                        &&& (#[trigger] titles@[k]).title@ == self@.row(
                            band_set(self@.band_start, k as nat),
                        ).title
                        &&& titles@[k].above_slot == ROW_STRIDE * k
                        &&& titles@[k].title_slot == band_set(self@.band_start, k as nat)
                            % NUM_ROWS as nat
                    },
            decreases self.shown_rows - adjusted_set_idx,
        {
            let true_set_idx = band_start + adjusted_set_idx;
            match &self.rows[true_set_idx % BUFFERED_ROWS] {
                Some(set_row) => {
                    let mut adjusted_item_idx: usize = 0;
                    while adjusted_item_idx < ROW_STRIDE
                        invariant
                            adjusted_item_idx <= ROW_STRIDE,
                            adjusted_set_idx < self@.shown_rows <= NUM_ROWS,
                            set_row@ == self@.row(true_set_idx as nat),
                            true_set_idx == band_set(self@.band_start, adjusted_set_idx as nat),
                            set_row@.window_cached(),
                            images@.len() == adjusted_set_idx * ROW_STRIDE + adjusted_item_idx,
                            forall|i: int|
                                0 <= i < images@.len() ==> images@[i] == self@.images()[i],
                        decreases ROW_STRIDE - adjusted_item_idx,
                    {
                        let adjusted_indices = AdjustedIndices { adjusted_set_idx, adjusted_item_idx };
                        let shown = set_row.show(&self.cursor, adjusted_indices);
                        images.push(shown.0);
                        adjusted_item_idx += 1;
                    }
                    titles.push(set_row.show_row_title(adjusted_set_idx));
                },
                None => {},
            }
            adjusted_set_idx += 1;
        }
        let cursor_slot = self.cursor.true_set_idx % BUFFERED_ROWS;
        let highlighted = match &self.rows[cursor_slot] {
            Some(highlighted_row) => {
                if self.highlights && highlighted_row.true_set_idx() == self.cursor.true_set_idx {
                    proof {
                        lemma_cursor_row_is_shown(self@);
                    }
                    let adjusted_indices = AdjustedIndices {
                        adjusted_set_idx: self.cursor.true_set_idx - band_start,
                        adjusted_item_idx: self.cursor.adjusted_item_idx,
                    };
                    Some(highlighted_row.show(&self.cursor, adjusted_indices).0)
                } else {
                    None
                }
            },
            None => None,
        };
        Frame { images, titles, highlighted }
    }

    /// Resets the budget of the tick if its cool-down is over, and updates
    /// the display, where an image is waiting to be loaded. Does nothing
    /// where none is.
    ///
    /// The clock decides whether the cool-down is over.
    pub fn load_pending_images(&mut self) -> (step: Step)
        requires
            old(self)@.base(),
        ensures
            exists|elapsed_ms: nat| final(self)@ == old(self)@.ticked(elapsed_ms),
            old(self)@.budget.needs_more ==> final(self)@.inv(),
            step == final(self)@.step(),
    {
        let ghost before = self@;
        if self.img_load_pending.needs_to_load() {
            self.img_load_pending.reset();
            let ghost reset = self@;
            let step = self.update_image_widgets();
            proof {
                if reset.budget == LoadBudget::cleared() {
                    assert(self@ == before.ticked(ITEM_LOADING_LOOP_THRESHOLD as nat));
                } else {
                    assert(self@ == before.ticked(0));
                }
            }
            step
        } else {
            assert(self@ == before.ticked(0));
            self.current_step()
        }
    }

    /// `load_pending_images`, for a given number of milliseconds since the
    /// last load.
    pub fn load_pending_images_after(&mut self, elapsed_ms: u128) -> (step: Step)
        requires
            old(self)@.base(),
        ensures
            final(self)@ == old(self)@.ticked(elapsed_ms as nat),
            old(self)@.budget.needs_more ==> final(self)@.inv(),
            step == final(self)@.step(),
    {
        if self.img_load_pending.needs_to_load() {
            self.img_load_pending.reset_after(elapsed_ms);
            self.update_image_widgets()
        } else {
            self.current_step()
        }
    }

    /// The highlighted item.
    pub fn cursor(&self) -> (cursor: Cursor)
        ensures
            cursor == self@.cursor,
    {
        self.cursor
    }

    /// The band of sets on screen, as it was last computed.
    pub fn visible_range(&self) -> (range: Range<usize>)
        ensures
            range.start == self@.band_start,
            range.end == self@.band_start + NUM_ROWS,
    {
        self.prev_visible_range.range()
    }

    /// The number of rows of the band that are shown.
    pub fn shown_rows(&self) -> (shown: usize)
        ensures
            shown == self@.shown_rows,
    {
        self.shown_rows
    }

    /// Whether the first pass has been made.
    pub fn is_initialized(&self) -> (initialized: bool)
        ensures
            initialized == self@.initialized,
    {
        self.initialized
    }

    /// Whether an image is waiting to be loaded on a later tick.
    pub fn needs_to_load(&self) -> (pending: bool)
        ensures
            pending == self@.budget.needs_more,
    {
        self.img_load_pending.needs_to_load()
    }

    /// The budget of the tick.
    pub fn img_load_pending(&self) -> (notifier: &ImgLoadingNotifier)
        ensures
            notifier@ == self@.budget,
    {
        &self.img_load_pending
    }

    /// The catalogue.
    pub fn api_handle(&self) -> (api: &'a Api)
        ensures
            *api == self@.api,
    {
        self.api_handle
    }

    /// The row of set `true_set_idx`, if the buffer holds it.
    pub fn row(&self, true_set_idx: usize) -> (row: Option<&SetRow<'a>>)
        requires
            self@.rows.len() == BUFFERED_ROWS,
        ensures
            match row {
                Some(row) => holds(self@.rows, true_set_idx as nat) && row@ == self@.row(
                    true_set_idx as nat,
                ),
                None => !holds(self@.rows, true_set_idx as nat),
            },
    {
        match &self.rows[true_set_idx % BUFFERED_ROWS] {
            Some(row) => {
                if row.true_set_idx() == true_set_idx {
                    Some(row)
                } else {
                    None
                }
            },
            None => None,
        }
    }

    /// The row in slot `slot` of the buffer, if there is one.
    pub fn row_in_slot(&self, slot: usize) -> (row: Option<&SetRow<'a>>)
        requires
            self@.rows.len() == BUFFERED_ROWS,
            slot < BUFFERED_ROWS,
        ensures
            match row {
                Some(row) => self@.rows[slot as int] == Some(row@),
                None => self@.rows[slot as int] is None,
            },
    {
        match &self.rows[slot] {
            Some(row) => Some(row),
            None => None,
        }
    }
}

} // verus!
