use hello_plus::api::Api;
use hello_plus::cached::{CachedImgData, DispCtrlImgData, FetchedImage, ImgState};
use hello_plus::config::{
    PLACEHOLDER_AND_NOT_FOUND_H, PLACEHOLDER_AND_NOT_FOUND_W, ROW_STRIDE, SINGLE_LOOP_MAX_LOAD,
};
use hello_plus::cursor::{get_img_idx, AdjustedIndices, Cursor, Dimensions};
use hello_plus::json::Json;
use hello_plus::loading::ImgLoadingNotifier;
use hello_plus::row::{HighlightedItemData, ImageWidget, SetRow};
use hello_plus::window::VisibleWindowTracker;

const IDS: DispCtrlImgData = DispCtrlImgData { nf_id: 1, placeholder_id: 2 };

fn obj(members: Vec<(&str, Json)>) -> Json {
    Json::Object(members.into_iter().map(|(key, value)| (key.to_string(), value)).collect())
}

fn catalogue(item_counts: &[usize]) -> Api {
    let containers = item_counts
        .iter()
        .map(|count| {
            let items = (0..*count).map(|_| Json::Null).collect();
            obj(vec![("set", obj(vec![("items", Json::Array(items))]))])
        })
        .collect();
    let document = obj(vec![(
        "data",
        obj(vec![("StandardCollection", obj(vec![("containers", Json::Array(containers))]))]),
    )]);
    let mut api = Api::new();
    assert!(api.load_home_data(document).is_ok());
    api
}

fn image(img_id: u64) -> Option<FetchedImage> {
    Some(FetchedImage { img_id, w: 400, h: 200 })
}

fn states(row: &SetRow) -> Vec<ImgState> {
    (0..row.cached_len()).map(|index| row.cached(index).unwrap().state).collect()
}

/// One tick on one row: loads as long as the row asks for it, and gives the
/// number of loads.
fn tick(row: &mut SetRow, notifier: &mut ImgLoadingNotifier, next_id: &mut u64) -> usize {
    let mut loads = 0;
    while let Some(item) = row.populate_row(&IDS, notifier) {
        row.store_fetched(item, image(*next_id), &IDS, notifier);
        *next_id += 1;
        loads += 1;
    }
    loads
}

#[test]
fn a_new_row_shows_the_left_end_of_its_set() {
    let api = catalogue(&[3]);
    let row = SetRow::new(api.get_set(0).unwrap(), 0);
    assert_eq!(row.left_right_idx_adjustment(), 0);
    assert_eq!(row.cached_len(), 0);
    assert_eq!(row.true_set_idx(), 0);
    assert_eq!(row.title(), "Title not found");
    assert_eq!(row.set_data().get_item_count(), 3);
    assert_eq!(row.cached(0), None);
}

#[test]
fn the_window_follows_the_cursor_to_the_right_in_the_last_slots() {
    let api = catalogue(&[20]);
    let mut row = SetRow::new(api.get_set(0).unwrap(), 0);
    // Moving right four times from slot 0: the cursor walks through slots 0,
    // 1 and 2, and the window moves once, at the step from slot 3.
    let mut adjusted = 0;
    let mut item = 0;
    let mut offsets = Vec::new();
    for _ in 0..4 {
        assert!(row.shift_right(adjusted, item));
        item += 1;
        adjusted = item - row.left_right_idx_adjustment();
        offsets.push(row.left_right_idx_adjustment());
    }
    assert_eq!(offsets, vec![0, 0, 0, 1]);
    assert_eq!((adjusted, item), (3, 4));
    assert!(row.shift_right(adjusted, item));
    assert_eq!(row.left_right_idx_adjustment(), 2);
}

#[test]
fn the_window_moves_right_exactly_when_the_slot_plus_four_exceeds_the_stride() {
    let api = catalogue(&[20]);
    for adjusted in 0..ROW_STRIDE {
        let mut row = SetRow::new(api.get_set(0).unwrap(), 0);
        assert!(row.shift_right(adjusted, adjusted));
        let expected = if adjusted + 4 > ROW_STRIDE { 1 } else { 0 };
        assert_eq!(row.left_right_idx_adjustment(), expected);
    }
}

#[test]
fn the_cursor_does_not_step_past_the_last_item() {
    let api = catalogue(&[5, 0, 1]);
    let mut row = SetRow::new(api.get_set(0).unwrap(), 0);
    assert!(row.shift_right(3, 3));
    assert_eq!(row.left_right_idx_adjustment(), 1);
    assert!(!row.shift_right(3, 4));
    assert_eq!(row.left_right_idx_adjustment(), 1);
    assert!(!row.shift_right(5, 7));
    assert_eq!(row.left_right_idx_adjustment(), 1);
    let mut empty = SetRow::new(api.get_set(1).unwrap(), 1);
    assert!(!empty.shift_right(0, 0));
    let mut single = SetRow::new(api.get_set(2).unwrap(), 2);
    assert!(!single.shift_right(0, 0));
    assert_eq!(single.left_right_idx_adjustment(), 0);
}

#[test]
fn the_window_follows_the_cursor_to_the_left_in_the_first_two_slots() {
    let api = catalogue(&[20]);
    let mut row = SetRow::new(api.get_set(0).unwrap(), 0);
    row.shift_left(0);
    assert_eq!(row.left_right_idx_adjustment(), 0);
    assert!(row.shift_right(3, 3));
    assert!(row.shift_right(3, 4));
    assert_eq!(row.left_right_idx_adjustment(), 2);
    row.shift_left(2);
    assert_eq!(row.left_right_idx_adjustment(), 2);
    row.shift_left(5);
    assert_eq!(row.left_right_idx_adjustment(), 2);
    row.shift_left(1);
    assert_eq!(row.left_right_idx_adjustment(), 1);
    row.shift_left(0);
    assert_eq!(row.left_right_idx_adjustment(), 0);
    row.shift_left(1);
    assert_eq!(row.left_right_idx_adjustment(), 0);
}

#[test]
fn slots_of_a_visible_row_are_adjacent() {
    assert_eq!(get_img_idx(0, 0), 0);
    assert_eq!(get_img_idx(5, 0), 5);
    assert_eq!(get_img_idx(0, 1), 6);
    assert_eq!(get_img_idx(2, 3), 20);
    assert_eq!(get_img_idx(5, 3), 23);
    let api = catalogue(&[1]);
    let row = SetRow::new(api.get_set(0).unwrap(), 0);
    assert_eq!(row.get_img_idx(4, 2), 16);
}

#[test]
fn an_item_without_entry_is_loaded_while_the_budget_lasts() {
    let api = catalogue(&[3]);
    let mut row = SetRow::new(api.get_set(0).unwrap(), 0);
    let mut notifier = ImgLoadingNotifier::new();
    notifier.reset_after(0);
    assert!(row.populate_cache_if_needed(0, &IDS, &mut notifier));
    assert_eq!(row.cached_len(), 0);
    assert!(!notifier.needs_to_load());
    row.store_fetched(0, image(10), &IDS, &mut notifier);
    assert_eq!(
        row.cached(0),
        Some(CachedImgData { img_id: 10, w: 400, h: 200, state: ImgState::Loaded })
    );
    assert_eq!(notifier.load_count(), 1);
    assert!(notifier.is_cooling_down());
    assert!(!notifier.needs_to_load());
}

#[test]
fn a_failed_load_is_recorded_and_not_tried_again() {
    let api = catalogue(&[3]);
    let mut row = SetRow::new(api.get_set(0).unwrap(), 0);
    let mut notifier = ImgLoadingNotifier::new();
    assert!(row.populate_cache_if_needed(0, &IDS, &mut notifier));
    row.store_fetched(0, None, &IDS, &mut notifier);
    assert_eq!(
        row.cached(0),
        Some(CachedImgData {
            img_id: IDS.nf_id,
            w: PLACEHOLDER_AND_NOT_FOUND_W,
            h: PLACEHOLDER_AND_NOT_FOUND_H,
            state: ImgState::NotFound,
        })
    );
    assert_eq!((PLACEHOLDER_AND_NOT_FOUND_W, PLACEHOLDER_AND_NOT_FOUND_H), (500, 220));
    assert_eq!(notifier.load_count(), 1);
    assert!(!row.populate_cache_if_needed(0, &IDS, &mut notifier));
    assert_eq!(notifier.load_count(), 1);
    assert_eq!(row.cached_len(), 1);
}

#[test]
fn an_item_without_entry_gets_a_placeholder_once_the_budget_is_spent() {
    let api = catalogue(&[3]);
    let mut row = SetRow::new(api.get_set(0).unwrap(), 0);
    let mut notifier = ImgLoadingNotifier::new();
    notifier.reset_after(0);
    notifier.image_loaded();
    notifier.image_loaded();
    assert!(!row.populate_cache_if_needed(0, &IDS, &mut notifier));
    assert_eq!(
        row.cached(0),
        Some(CachedImgData { img_id: IDS.placeholder_id, w: 500, h: 220, state: ImgState::Placeholder })
    );
    assert_eq!(row.cached(0), Some(CachedImgData::new_placeholder(&IDS)));
    assert!(notifier.needs_to_load());
    assert_eq!(notifier.load_count(), 2);
}

#[test]
fn a_placeholder_is_replaced_in_place_when_there_is_budget_again() {
    let api = catalogue(&[3]);
    let mut row = SetRow::new(api.get_set(0).unwrap(), 0);
    let mut notifier = ImgLoadingNotifier::new();
    notifier.image_loaded();
    notifier.image_loaded();
    assert!(!row.populate_cache_if_needed(0, &IDS, &mut notifier));
    assert!(!row.populate_cache_if_needed(1, &IDS, &mut notifier));
    // Still without budget: the placeholder stays, and the notifier is told again.
    notifier.reset_after(0);
    assert!(notifier.needs_to_load());
    assert!(!row.populate_cache_if_needed(0, &IDS, &mut notifier));
    assert_eq!(row.cached_len(), 2);
    notifier.reset_after(200);
    assert!(!notifier.needs_to_load());
    assert!(row.populate_cache_if_needed(0, &IDS, &mut notifier));
    row.store_fetched(0, image(7), &IDS, &mut notifier);
    assert_eq!(states(&row), vec![ImgState::Loaded, ImgState::Placeholder]);
    assert_eq!(row.cached(0).unwrap().img_id, 7);
    assert!(!notifier.needs_to_load());
    assert!(!row.populate_cache_if_needed(0, &IDS, &mut notifier));
}

#[test]
fn the_outcome_of_a_load_decides_the_entry() {
    assert_eq!(
        CachedImgData::get_home_tile_or_not_found(Some(FetchedImage { img_id: 9, w: 3, h: 4 }), &IDS),
        CachedImgData::new(9, 3, 4, ImgState::Loaded)
    );
    assert_eq!(
        CachedImgData::get_home_tile_or_not_found(None, &IDS),
        CachedImgData::new(1, 500, 220, ImgState::NotFound)
    );
    assert!(CachedImgData::new_placeholder(&IDS).is_placeholder());
    assert!(!CachedImgData::new(9, 3, 4, ImgState::Loaded).is_placeholder());
    assert!(!CachedImgData::new(1, 500, 220, ImgState::NotFound).is_placeholder());
}

#[test]
fn a_row_that_needs_five_images_gets_two_per_tick() {
    assert_eq!(SINGLE_LOOP_MAX_LOAD, 2);
    let api = catalogue(&[10]);
    let mut row = SetRow::new(api.get_set(0).unwrap(), 0);
    let mut notifier = ImgLoadingNotifier::new();
    // The first image is there already; five of the window are missing.
    assert!(row.populate_cache_if_needed(0, &IDS, &mut notifier));
    row.store_fetched(0, image(100), &IDS, &mut notifier);
    notifier.reset_after(200);
    let mut next_id = 101;

    assert_eq!(tick(&mut row, &mut notifier, &mut next_id), 2);
    let (loaded, placeholder) = (ImgState::Loaded, ImgState::Placeholder);
    assert_eq!(states(&row), vec![loaded, loaded, loaded, placeholder, placeholder, placeholder]);
    assert!(notifier.needs_to_load());

    // Before the cool-down is over nothing more is loaded.
    notifier.reset_after(100);
    assert_eq!(tick(&mut row, &mut notifier, &mut next_id), 0);

    notifier.reset_after(200);
    assert_eq!(tick(&mut row, &mut notifier, &mut next_id), 2);
    assert_eq!(states(&row), vec![loaded, loaded, loaded, loaded, loaded, placeholder]);
    assert!(notifier.needs_to_load());

    notifier.reset_after(200);
    assert_eq!(tick(&mut row, &mut notifier, &mut next_id), 1);
    assert_eq!(states(&row), vec![loaded; 6]);
    assert!(!notifier.needs_to_load());

    notifier.reset_after(200);
    assert_eq!(tick(&mut row, &mut notifier, &mut next_id), 0);
    assert_eq!(row.cached_len(), 6);
    let ids: Vec<u64> = (0..6).map(|index| row.cached(index).unwrap().img_id).collect();
    assert_eq!(ids, vec![100, 101, 102, 103, 104, 105]);
}

#[test]
fn a_row_with_budget_asks_for_its_first_missing_item() {
    let api = catalogue(&[10]);
    let mut row = SetRow::new(api.get_set(0).unwrap(), 0);
    let mut notifier = ImgLoadingNotifier::new();
    notifier.reset_after(0);
    assert_eq!(row.populate_row(&IDS, &mut notifier), Some(0));
    assert_eq!(row.populate_row(&IDS, &mut notifier), Some(0));
    assert_eq!(row.cached_len(), 0);
    assert!(!notifier.needs_to_load());
    row.store_fetched(0, None, &IDS, &mut notifier);
    assert_eq!(row.populate_row(&IDS, &mut notifier), Some(1));
}

#[test]
fn a_shown_item_is_drawn_in_its_slot() {
    let api = catalogue(&[10]);
    let mut row = SetRow::new(api.get_set(0).unwrap(), 4);
    let mut notifier = ImgLoadingNotifier::new();
    let mut next_id = 50;
    for _ in 0..4 {
        tick(&mut row, &mut notifier, &mut next_id);
        notifier.reset_after(200);
    }
    assert!(row.shift_right(3, 3));
    tick(&mut row, &mut notifier, &mut next_id);
    assert_eq!(row.cached_len(), 7);
    let indices = AdjustedIndices { adjusted_set_idx: 2, adjusted_item_idx: 3 };
    let elsewhere = Cursor { true_set_idx: 4, true_item_idx: 3, adjusted_item_idx: 2 };
    let (widget, highlight) = row.show(&elsewhere, indices);
    assert_eq!(
        widget,
        ImageWidget { slot: 15, img_id: 54, dims: Dimensions { w: 400, h: 200 }, indices }
    );
    assert_eq!(highlight, None);
    let here = Cursor { true_set_idx: 4, true_item_idx: 4, adjusted_item_idx: 3 };
    assert_eq!(
        row.show(&here, indices).1,
        Some(HighlightedItemData {
            img_id: 54,
            w: 400,
            h: 200,
            true_set_idx: 4,
            adjusted_item_idx: 3,
            adjusted_set_idx: 2,
        })
    );
    let other_set = Cursor { true_set_idx: 5, true_item_idx: 4, adjusted_item_idx: 3 };
    assert_eq!(row.show(&other_set, indices).1, None);
    assert_eq!(
        row.draw_image(8, Dimensions { w: 1, h: 2 }, indices),
        ImageWidget { slot: 15, img_id: 8, dims: Dimensions { w: 1, h: 2 }, indices }
    );
}

#[test]
fn the_title_stands_above_the_first_slot_of_its_row() {
    let api = catalogue(&[1]);
    let row = SetRow::new(api.get_set(0).unwrap(), 9);
    let title = row.show_row_title(2);
    assert_eq!(title.title, "Title not found");
    assert_eq!(title.above_slot, 12);
    assert_eq!(title.title_slot, 1);
}

#[test]
fn the_band_follows_the_cursor_with_slack() {
    let mut tracker = VisibleWindowTracker::new();
    assert_eq!(tracker.range(), 0..4);
    assert_eq!(tracker.visible_set_range(0), 0..4);
    assert_eq!(tracker.visible_set_range(1), 0..4);
    assert_eq!(tracker.visible_set_range(2), 0..4);
    assert_eq!(tracker.visible_set_range(3), 1..5);
    assert_eq!(tracker.visible_set_range(4), 2..6);
    // Back by one set: the band stays.
    assert_eq!(tracker.visible_set_range(3), 2..6);
    assert_eq!(tracker.range(), 2..6);
    assert_eq!(tracker.visible_set_range(2), 0..4);
    assert_eq!(tracker.visible_set_range(10), 8..12);
    assert_eq!(tracker.visible_set_range(9), 8..12);
    assert_eq!(tracker.visible_set_range(8), 6..10);
    assert_eq!(tracker.visible_set_range(0), 0..4);
    assert_eq!(Cursor::default(), Cursor { true_set_idx: 0, true_item_idx: 0, adjusted_item_idx: 0 });
}
