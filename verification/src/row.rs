//! One row of the grid: a set of the catalogue, the images cached for its
//! items, and the left edge of its window.
//!
//! An item has two indices. Its true index is its position among the items of
//! the set. Its adjusted index is the viewport slot in which it stands, and
//! `true = adjusted + offset`, where the offset is the true index of the item
//! in the leftmost slot.

use crate::api::item_count_of;
use crate::api::title_of;
use crate::api::SetData;
use crate::cached::CachedImgData;
use crate::cached::DispCtrlImgData;
use crate::cached::FetchedImage;
use crate::cached::ImgState;
use crate::config::NUM_ROWS;
use crate::config::ROW_STRIDE;
use crate::cursor::get_img_idx;
use crate::cursor::img_idx;
use crate::cursor::AdjustedIndices;
use crate::cursor::Cursor;
use crate::cursor::Dimensions;
use crate::json::Json;
use crate::loading::ImgLoadingNotifier;
use crate::loading::LoadBudget;
use vstd::prelude::*;

verus! {

/// An image to be drawn in a viewport slot.
#[derive(Clone, Copy, Debug, PartialEq, Eq, Structural)]
pub struct ImageWidget {
    /// The slot, which is also the index of the image widget.
    pub slot: usize,
    pub img_id: u64,
    pub dims: Dimensions,
    pub indices: AdjustedIndices,
}

/// The item under the cursor, kept apart so that it can be drawn last and
/// enlarged, on top of its neighbours.
#[derive(Clone, Copy, Debug, PartialEq, Eq, Structural)]
pub struct HighlightedItemData {
    pub img_id: u64,
    pub w: u32,
    pub h: u32,
    pub true_set_idx: usize,
    pub adjusted_item_idx: usize,
    pub adjusted_set_idx: usize,
}

/// The title of a visible row, to be drawn above the row's leftmost slot.
#[derive(Clone, Copy, Debug, PartialEq, Eq)]
pub struct TitleWidget<'a> {
    pub title: &'a str,
    /// The slot above which the title stands.
    pub above_slot: usize,
    /// The index of the title widget.
    pub title_slot: usize,
}

/// The state of a row.
pub struct SetRowView {
    /// The title of the set.
    pub title: Seq<char>,
    /// The description of the set in the home document.
    pub entry: Json,
    /// The position of the set in the catalogue.
    pub true_set_idx: nat,
    /// The cached images, by true item index.
    pub items: Seq<CachedImgData>,
    /// The true index of the item in the leftmost slot.
    pub offset: nat,
}

impl SetRowView {
    /// A row as it is created: nothing cached, the window at the left end.
    pub open spec fn fresh(entry: Json, true_set_idx: nat) -> SetRowView {
        SetRowView { title: title_of(entry), entry, true_set_idx, items: Seq::empty(), offset: 0 }
    }

    /// Whether the indices of the window's items fit in `usize`.
    pub open spec fn fits(self) -> bool {
        self.offset + ROW_STRIDE <= usize::MAX
    }

    /// The number of items of the set.
    pub open spec fn item_count(self) -> nat {
        item_count_of(self.entry)
    }

    /// The row after the cursor, standing in slot `adjusted_item_idx` on item
    /// `true_item_idx`, is asked one step to the right: the window follows
    /// when the cursor stands in one of the last slots, unless the cursor is
    /// on the last item already.
    pub open spec fn shifted_right(self, adjusted_item_idx: nat, true_item_idx: nat) -> SetRowView {
        if true_item_idx + 1 < self.item_count() && adjusted_item_idx + 4 > ROW_STRIDE {
            SetRowView { offset: self.offset + 1, ..self }
        } else {
            self
        }
    }

    /// The row after the cursor, standing in slot `adjusted_item_idx`, is
    /// asked one step to the left: the window follows when the cursor stands
    /// in one of the first two slots, unless the window is at the left end.
    pub open spec fn shifted_left(self, adjusted_item_idx: nat) -> SetRowView {
        if self.offset > 0 && adjusted_item_idx < 2 {
            SetRowView { offset: (self.offset - 1) as nat, ..self }
        } else {
            self
        }
    }

    /// Whether item `true_item_idx` has no image yet: no entry, or a placeholder.
    pub open spec fn needs_image(self, true_item_idx: nat) -> bool {
        true_item_idx >= self.items.len() || self.items[true_item_idx as int].state
            == ImgState::Placeholder
    }

    /// Whether the item in slot `slot` has no image yet.
    pub open spec fn slot_needs_image(self, slot: nat) -> bool {
        self.needs_image(self.offset + slot)
    }

    /// The first item without image in the window, looking from slot `from`
    /// to the right.
    pub open spec fn first_needed(self, from: nat) -> Option<nat>
        decreases ROW_STRIDE - from,
    {
        if from >= ROW_STRIDE {
            None
        } else if self.slot_needs_image(from) {
            Some(self.offset + from)
        } else {
            self.first_needed(from + 1)
        }
    }

    /// The row after item `true_item_idx` was looked at without loading it: an
    /// item without entry gets a placeholder where the tick has no budget left.
    pub open spec fn populated(
        self,
        true_item_idx: nat,
        ids: DispCtrlImgData,
        can_load_more: bool,
    ) -> SetRowView {
        if true_item_idx >= self.items.len() && !can_load_more {
            SetRowView { items: self.items.push(CachedImgData::placeholder(ids)), ..self }
        } else {
            self
        }
    }

    /// The row after `image` was stored for item `true_item_idx`: in place of
    /// the item's entry, or at the end where the item has none.
    pub open spec fn stored(self, true_item_idx: nat, image: CachedImgData) -> SetRowView {
        if true_item_idx < self.items.len() {
            SetRowView { items: self.items.update(true_item_idx as int, image), ..self }
        } else {
            SetRowView { items: self.items.push(image), ..self }
        }
    }

    /// The cached images, with placeholders added until there are `len` of them.
    pub open spec fn padded(self, len: nat, ids: DispCtrlImgData) -> SetRowView {
        if self.items.len() < len {
            SetRowView {
                items: self.items + Seq::new(
                    (len - self.items.len()) as nat,
                    |i: int| CachedImgData::placeholder(ids),
                ),
                ..self
            }
        } else {
            self
        }
    }

    /// The row after its window was shown during a tick without budget: every
    /// item of the window has an entry.
    pub open spec fn starved(self, ids: DispCtrlImgData) -> SetRowView {
        self.padded(self.offset + ROW_STRIDE as nat, ids)
    }

    /// Whether every item of the window has an entry.
    pub open spec fn window_cached(self) -> bool {
        self.offset + ROW_STRIDE <= self.items.len()
    }

    /// The image widget for viewport position `indices`.
    pub open spec fn widget_at(self, indices: AdjustedIndices) -> ImageWidget {
        let image = self.items[self.offset + indices.adjusted_item_idx];
        ImageWidget {
            slot: img_idx(indices.adjusted_item_idx as nat, indices.adjusted_set_idx as nat) as usize,
            img_id: image.img_id,
            dims: Dimensions { w: image.w, h: image.h },
            indices,
        }
    }

    /// Whether the cursor is on the item in slot `adjusted_item_idx` of this row.
    pub open spec fn under_cursor(self, cursor: Cursor, adjusted_item_idx: nat) -> bool {
        cursor.true_set_idx == self.true_set_idx && cursor.true_item_idx == self.offset
            + adjusted_item_idx
    }

    /// The highlight for viewport position `indices`, if the cursor is there.
    pub open spec fn highlight_at(self, cursor: Cursor, indices: AdjustedIndices) -> Option<
        HighlightedItemData,
    > {
        if self.under_cursor(cursor, indices.adjusted_item_idx as nat) {
            let image = self.items[self.offset + indices.adjusted_item_idx];
            Some(
                HighlightedItemData {
                    img_id: image.img_id,
                    w: image.w,
                    h: image.h,
                    true_set_idx: self.true_set_idx as usize,
                    adjusted_item_idx: indices.adjusted_item_idx,
                    adjusted_set_idx: indices.adjusted_set_idx,
                },
            )
        } else {
            None
        }
    }
}

/// `first_needed` gives an item of the window that has no image, and no item
/// between slot `from` and that item lacks one. Where it gives none, every
/// item from slot `from` on has an image.
pub proof fn lemma_first_needed(row: SetRowView, from: nat)
    ensures
        match row.first_needed(from) {
            Some(true_item_idx) => {
                &&& row.offset + from <= true_item_idx < row.offset + ROW_STRIDE
                &&& row.needs_image(true_item_idx)
                &&& forall|slot: nat|
                    from <= slot < true_item_idx - row.offset ==> !#[trigger] row.slot_needs_image(
                        slot,
                    )
            },
            None => forall|slot: nat|
                from <= slot < ROW_STRIDE ==> !#[trigger] row.slot_needs_image(slot),
        },
    decreases ROW_STRIDE - from,
{
    if from < ROW_STRIDE && !row.slot_needs_image(from) {
        lemma_first_needed(row, from + 1);
    }
}

/// A window in which no item lacks an image has an entry for every item.
pub proof fn lemma_nothing_needed_is_cached(row: SetRowView)
    requires
        row.first_needed(0) is None,
    ensures
        row.window_cached(),
{
    lemma_first_needed(row, 0);
    assert(!row.slot_needs_image((ROW_STRIDE - 1) as nat));
}

/// An image that is loaded, or known to be missing, stays as it is: looking
/// at an item, showing the window without budget, and storing the outcome of
/// a load that was asked for change no entry but a placeholder.
pub proof fn lemma_entries_are_final(
    row: SetRowView,
    true_item_idx: nat,
    ids: DispCtrlImgData,
    can_load_more: bool,
    image: CachedImgData,
    entry: int,
)
    requires
        0 <= entry < row.items.len(),
        row.items[entry].state != ImgState::Placeholder,
    ensures
        row.populated(true_item_idx, ids, can_load_more).items[entry] == row.items[entry],
        row.starved(ids).items[entry] == row.items[entry],
        row.needs_image(true_item_idx) ==> row.stored(true_item_idx, image).items[entry]
            == row.items[entry],
{
}

/// The cache of a row never shrinks.
pub proof fn lemma_cache_never_shrinks(
    row: SetRowView,
    true_item_idx: nat,
    adjusted_item_idx: nat,
    ids: DispCtrlImgData,
    can_load_more: bool,
    image: CachedImgData,
)
    ensures
        row.populated(true_item_idx, ids, can_load_more).items.len() >= row.items.len(),
        row.starved(ids).items.len() >= row.items.len(),
        row.stored(true_item_idx, image).items.len() >= row.items.len(),
        row.shifted_left(adjusted_item_idx).items == row.items,
        row.shifted_right(adjusted_item_idx, true_item_idx).items == row.items,
{
}

/// What is needed to draw one row: the set's title, its cached images, and
/// the offset of its window.
pub struct SetRow<'a> {
    title: &'a str,
    set_data: SetData<'a>,
    true_set_idx: usize,
    cached_img_id: Vec<CachedImgData>,
    left_right_idx_adjustment: usize,
}

impl<'a> View for SetRow<'a> {
    type V = SetRowView;

    closed spec fn view(&self) -> SetRowView {
        SetRowView {
            title: self.title@,
            entry: self.set_data.entry(),
            true_set_idx: self.true_set_idx as nat,
            items: self.cached_img_id@,
            offset: self.left_right_idx_adjustment as nat,
        }
    }
}

impl<'a> SetRow<'a> {
    /// A row for set `true_set_idx` of the catalogue: nothing cached, the
    /// window at the left end.
    pub fn new(set_data: SetData<'a>, true_set_idx: usize) -> (row: Self)
        ensures
            row@ == SetRowView::fresh(set_data.entry(), true_set_idx as nat),
    {
        let title = set_data.get_title();
        SetRow {
            set_data,
            title,
            true_set_idx,
            cached_img_id: Vec::new(),
            left_right_idx_adjustment: 0,
        }
    }

    /// Moves the window one item to the right if the cursor, standing in slot
    /// `adjusted_item_idx` on item `true_item_idx`, needs it. Says whether the
    /// cursor may step to the right: it may not on the last item.
    pub fn shift_right(&mut self, adjusted_item_idx: usize, true_item_idx: usize) -> (moved: bool)
        requires
            old(self)@.offset <= true_item_idx,
        ensures
            moved == (true_item_idx + 1 < old(self)@.item_count()),
            old(self)@.fits() ==> final(self)@.fits(),
            final(self)@ == old(self)@.shifted_right(adjusted_item_idx as nat, true_item_idx as nat),
            !moved ==> final(self)@ == old(self)@,
            final(self)@.offset == old(self)@.offset || final(self)@.offset == old(self)@.offset + 1,
    {
        let item_count = self.set_data.get_item_count();
        if true_item_idx < item_count && true_item_idx + 1 < item_count {
            if adjusted_item_idx > ROW_STRIDE - 4 {
                self.left_right_idx_adjustment += 1;
            }
            true
        } else {
            false
        }
    }

    /// Moves the window one item to the left if the cursor, standing in slot
    /// `adjusted_item_idx`, needs it.
    pub fn shift_left(&mut self, adjusted_item_idx: usize)
        ensures
            final(self)@ == old(self)@.shifted_left(adjusted_item_idx as nat),
            final(self)@.offset == old(self)@.offset || final(self)@.offset + 1 == old(self)@.offset,
    {
        if self.left_right_idx_adjustment > 0 && adjusted_item_idx < 2 {
            self.left_right_idx_adjustment -= 1;
        }
    }

    /// The viewport slot of a position.
    pub fn get_img_idx(&self, adjusted_item_idx: usize, adjusted_set_idx: usize) -> (slot: usize)
        requires
            adjusted_item_idx < ROW_STRIDE,
            adjusted_set_idx < NUM_ROWS,
        ensures
            slot == img_idx(adjusted_item_idx as nat, adjusted_set_idx as nat),
    {
        get_img_idx(adjusted_item_idx, adjusted_set_idx)
    }

    /// Looks at item `true_item_idx` and says whether its image is to be
    /// loaded now.
    ///
    /// That is the case where the item has no image yet and the tick has
    /// budget left; the caller then loads the image and hands it to
    /// `store_fetched`. Without budget an item without entry gets a
    /// placeholder, and the notifier is told that an image is waiting.
    pub fn populate_cache_if_needed(
        &mut self,
        true_item_idx: usize,
        ids: &DispCtrlImgData,
        img_load_pending: &mut ImgLoadingNotifier,
    ) -> (fetch: bool)
        ensures
            fetch == (old(self)@.needs_image(true_item_idx as nat) && old(
                img_load_pending,
            )@.can_load_more()),
            final(self)@ == old(self)@.populated(
                true_item_idx as nat,
                *ids,
                old(img_load_pending)@.can_load_more(),
            ),
            final(img_load_pending)@ == (LoadBudget {
                needs_more: old(img_load_pending)@.needs_more || (old(self)@.needs_image(
                    true_item_idx as nat,
                ) && !old(img_load_pending)@.can_load_more()),
                ..old(img_load_pending)@
            }),
    {
        let is_cached_already = true_item_idx < self.cached_img_id.len();
        let can_load_more = img_load_pending.can_load_more();
        if is_cached_already {
            let is_placeholder = self.cached_img_id[true_item_idx].is_placeholder();
            if is_placeholder && can_load_more {
                true
            } else if is_placeholder && !can_load_more {
                img_load_pending.request_more();
                false
            } else {
                false
            }
        } else if can_load_more {
            true
        } else {
            self.cached_img_id.push(CachedImgData::new_placeholder(ids));
            img_load_pending.request_more();
            false
        }
    }

    /// Stores the outcome of the load that `populate_cache_if_needed` asked
    /// for, and charges it to the tick's budget.
    pub fn store_fetched(
        &mut self,
        true_item_idx: usize,
        fetched: Option<FetchedImage>,
        ids: &DispCtrlImgData,
        img_load_pending: &mut ImgLoadingNotifier,
    )
        requires
            old(self)@.needs_image(true_item_idx as nat),
            old(img_load_pending)@.can_load_more(),
        ensures
            final(self)@ == old(self)@.stored(
                true_item_idx as nat,
                CachedImgData::home_tile_or_not_found(fetched, *ids),
            ),
            final(img_load_pending)@.loads_this_tick == old(img_load_pending)@.loads_this_tick + 1,
            final(img_load_pending)@.needs_more == old(img_load_pending)@.needs_more,
            final(img_load_pending)@.last_load_at is Some,
    {
        let cached_img = CachedImgData::get_home_tile_or_not_found(fetched, ids);
        if true_item_idx < self.cached_img_id.len() {
            self.cached_img_id[true_item_idx] = cached_img;
        } else {
            self.cached_img_id.push(cached_img);
        }
        img_load_pending.image_loaded();
    }

    /// Looks at the items of the window, from the left, until one is to be
    /// loaded now, and gives its true index.
    ///
    /// With budget left nothing changes: the result is the first item of the
    /// window without image, if there is one. Without budget nothing is to be
    /// loaded: every item of the window without entry gets a placeholder, and
    /// the notifier is told if an image is waiting.
    pub fn populate_row(
        &mut self,
        ids: &DispCtrlImgData,
        img_load_pending: &mut ImgLoadingNotifier,
    ) -> (needed: Option<usize>)
        requires
            old(self)@.fits(),
            old(self)@.offset <= old(self)@.items.len(),
        ensures
            match needed {
                Some(true_item_idx) => old(img_load_pending)@.can_load_more() && old(
                    self,
                )@.first_needed(0) == Some(true_item_idx as nat),
                None => !old(img_load_pending)@.can_load_more() || old(self)@.first_needed(0) is None,
            },
            old(img_load_pending)@.can_load_more() ==> {
                &&& final(self)@ == old(self)@
                &&& final(img_load_pending)@ == old(img_load_pending)@
            },
            !old(img_load_pending)@.can_load_more() ==> {
                &&& final(self)@ == old(self)@.starved(*ids)
                &&& final(img_load_pending)@ == (LoadBudget {
                    needs_more: old(img_load_pending)@.needs_more || old(self)@.first_needed(0) is Some,
                    ..old(img_load_pending)@
                })
            },
    {
        let ghost before = self@;
        let ghost budget = img_load_pending@;
        let mut slot: usize = 0;
        while slot < ROW_STRIDE
            invariant
                slot <= ROW_STRIDE,
                before == old(self)@,
                budget == old(img_load_pending)@,
                before.fits(),
                before.offset <= before.items.len(),
                budget.can_load_more() ==> {
                    &&& self@ == before
                    &&& img_load_pending@ == budget
                    &&& before.first_needed(0) == before.first_needed(slot as nat)
                },
                !budget.can_load_more() ==> {
                    &&& self@ == before.padded(before.offset + slot as nat, *ids)
                    &&& img_load_pending@ == (LoadBudget {
                        needs_more: img_load_pending@.needs_more,
                        ..budget
                    })
                    &&& (img_load_pending@.needs_more || before.first_needed(slot as nat) is Some)
                        == (budget.needs_more || before.first_needed(0) is Some)
                },
            decreases ROW_STRIDE - slot,
        {
            let true_item_idx = self.left_right_idx_adjustment + slot;
            if self.populate_cache_if_needed(true_item_idx, ids, img_load_pending) {
                return Some(true_item_idx);
            }
            proof {
                if !budget.can_load_more() {
                    assert(self@.items == before.padded(
                        before.offset + slot as nat + 1,
                        *ids,
                    ).items);
                }
            }
            slot += 1;
        }
        None
    }

    /// The image to draw at viewport position `adjusted_indices`, and the
    /// highlight if the cursor is on the item there.
    pub fn show(&self, cursor: &Cursor, adjusted_indices: AdjustedIndices) -> (shown: (
        ImageWidget,
        Option<HighlightedItemData>,
    ))
        requires
            adjusted_indices.in_viewport(),
            self@.offset + adjusted_indices.adjusted_item_idx < self@.items.len(),
        ensures
            shown.0 == self@.widget_at(adjusted_indices),
            shown.1 == self@.highlight_at(*cursor, adjusted_indices),
    {
        let AdjustedIndices { adjusted_set_idx, adjusted_item_idx } = adjusted_indices;
        assert(self@.items.len() <= usize::MAX) by {
            vstd::std_specs::vec::axiom_spec_len(&self.cached_img_id);
        }
        let true_item_idx = adjusted_item_idx + self.left_right_idx_adjustment;
        let data = self.cached_img_id[true_item_idx];
        let hd = if cursor.true_set_idx == self.true_set_idx && cursor.true_item_idx
            == true_item_idx {
            Some(
                HighlightedItemData {
                    img_id: data.img_id,
                    w: data.w,
                    h: data.h,
                    true_set_idx: self.true_set_idx,
                    adjusted_item_idx,
                    adjusted_set_idx,
                },
            )
        } else {
            None
        };
        let widget = self.draw_image(
            data.img_id,
            Dimensions { w: data.w, h: data.h },
            adjusted_indices,
        );
        (widget, hd)
    }

    /// The widget that shows image `img_id` at viewport position
    /// `adjusted_indices`.
    pub fn draw_image(&self, img_id: u64, dims: Dimensions, adjusted_indices: AdjustedIndices) -> (widget:
        ImageWidget)
        requires
            adjusted_indices.in_viewport(),
        ensures
            widget == (ImageWidget {
                slot: img_idx(
                    adjusted_indices.adjusted_item_idx as nat,
                    adjusted_indices.adjusted_set_idx as nat,
                ) as usize,
                img_id,
                dims,
                indices: adjusted_indices,
            }),
    {
        ImageWidget {
            slot: self.get_img_idx(
                adjusted_indices.adjusted_item_idx,
                adjusted_indices.adjusted_set_idx,
            ),
            img_id,
            dims,
            indices: adjusted_indices,
        }
    }

    /// The widget that shows the title above visible row `adjusted_set_idx`.
    pub fn show_row_title(&self, adjusted_set_idx: usize) -> (widget: TitleWidget<'a>)
        requires
            adjusted_set_idx < NUM_ROWS,
        ensures
            widget.title@ == self@.title,
            widget.above_slot == ROW_STRIDE * adjusted_set_idx,
            widget.title_slot == self@.true_set_idx % NUM_ROWS as nat,
    {
        TitleWidget {
            title: self.title,
            above_slot: ROW_STRIDE * adjusted_set_idx,
            title_slot: self.true_set_idx % NUM_ROWS,
        }
    }

    /// The title of the set.
    pub fn title(&self) -> (title: &'a str)
        ensures
            title@ == self@.title,
    {
        self.title
    }

    /// The set that the row shows.
    pub fn set_data(&self) -> (set_data: &SetData<'a>)
        ensures
            set_data.entry() == self@.entry,
    {
        &self.set_data
    }

    /// The position of the set in the catalogue.
    pub fn true_set_idx(&self) -> (true_set_idx: usize)
        ensures
            true_set_idx == self@.true_set_idx,
    {
        self.true_set_idx
    }

    /// The true index of the item in the leftmost slot.
    pub fn left_right_idx_adjustment(&self) -> (offset: usize)
        ensures
            offset == self@.offset,
    {
        self.left_right_idx_adjustment
    }

    /// The number of cached images.
    pub fn cached_len(&self) -> (len: usize)
        ensures
            len == self@.items.len(),
    {
        self.cached_img_id.len()
    }

    /// The image cached for item `true_item_idx`, if there is one.
    pub fn cached(&self, true_item_idx: usize) -> (entry: Option<CachedImgData>)
        ensures
            entry == if true_item_idx < self@.items.len() {
                Some(self@.items[true_item_idx as int])
            } else {
                None
            },
    {
        if true_item_idx < self.cached_img_id.len() {
            Some(self.cached_img_id[true_item_idx])
        } else {
            None
        }
    }
}

} // verus!
