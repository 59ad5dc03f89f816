use hello_plus::api::Api;
use hello_plus::buffer::Resolution;
use hello_plus::cached::{DispCtrlImgData, FetchedImage, ImgState};
use hello_plus::config::{BUFFERED_ROWS, NUM_ROWS, ROW_STRIDE};
use hello_plus::controller::DisplayController;
use hello_plus::cursor::{AdjustedIndices, Cursor, Dimensions};
use hello_plus::input::Direction;
use hello_plus::json::Json;
use hello_plus::row::{ImageWidget, SetRow};
use hello_plus::state::Step;

const IDS: DispCtrlImgData = DispCtrlImgData { nf_id: 1, placeholder_id: 2 };

fn obj(members: Vec<(&str, Json)>) -> Json {
    Json::Object(members.into_iter().map(|(key, value)| (key.to_string(), value)).collect())
}

fn titled(title: String, items: usize) -> Json {
    let content = obj(vec![("content", Json::Text(title))]);
    let full = obj(vec![("set", obj(vec![("default", content)]))]);
    obj(vec![
        ("text", obj(vec![("title", obj(vec![("full", full)]))])),
        ("items", Json::Array((0..items).map(|_| Json::Null).collect())),
    ])
}

fn catalogue(item_counts: &[usize]) -> Api {
    let containers = item_counts
        .iter()
        .enumerate()
        .map(|(index, count)| obj(vec![("set", titled(format!("Set {}", index), *count))]))
        .collect();
    let document = obj(vec![(
        "data",
        obj(vec![("StandardCollection", obj(vec![("containers", Json::Array(containers))]))]),
    )]);
    let mut api = Api::new();
    assert!(api.load_home_data(document).is_ok());
    api
}

/// The image of an item: its handle tells the set and the item.
fn image(true_set_idx: usize, true_item_idx: usize) -> Option<FetchedImage> {
    Some(FetchedImage { img_id: (1000 * (true_set_idx + 1) + true_item_idx) as u64, w: 400, h: 200 })
}

/// Loads what the controller asks for until it asks for nothing more, and
/// gives the items that were loaded.
fn drive(controller: &mut DisplayController, mut step: Step) -> Vec<(usize, usize)> {
    let mut loaded = Vec::new();
    while let Step::Fetch { true_set_idx, true_item_idx } = step {
        loaded.push((true_set_idx, true_item_idx));
        step = controller.image_fetched(image(true_set_idx, true_item_idx));
    }
    loaded
}

/// Ticks until every shown item is loaded.
fn settle(controller: &mut DisplayController) {
    while controller.needs_to_load() {
        let step = controller.load_pending_images_after(200);
        drive(controller, step);
    }
}

fn started(api: &Api) -> DisplayController<'_> {
    let mut controller = DisplayController::new(api, IDS);
    let step = controller.initialize();
    drive(&mut controller, step);
    settle(&mut controller);
    controller
}

fn go(controller: &mut DisplayController, direction: Direction) {
    let step = controller.navigate(direction);
    drive(controller, step);
    settle(controller);
}

fn empty_buffer<'a>() -> Vec<Option<SetRow<'a>>> {
    (0..BUFFERED_ROWS).map(|_| None).collect()
}

fn sets_in(rows: &Vec<Option<SetRow>>) -> Vec<Option<usize>> {
    rows.iter().map(|row| row.as_ref().map(|row| row.true_set_idx())).collect()
}

#[test]
fn a_row_is_brought_in_once_and_found_afterwards() {
    let api = catalogue(&[3, 3, 3]);
    let mut rows = empty_buffer();
    assert_eq!(DisplayController::fetch_row(&mut rows, 1, &api), Resolution::Fetched);
    assert_eq!(sets_in(&rows), vec![None, Some(1), None, None, None, None]);
    assert_eq!(rows[1].as_ref().unwrap().title(), "Set 1");
    assert!(rows[1].as_mut().unwrap().shift_right(3, 1));
    assert_eq!(rows[1].as_ref().unwrap().left_right_idx_adjustment(), 1);
    // The second request finds the row as it was left.
    assert_eq!(DisplayController::fetch_row(&mut rows, 1, &api), Resolution::Hit);
    assert_eq!(sets_in(&rows), vec![None, Some(1), None, None, None, None]);
    assert_eq!(rows[1].as_ref().unwrap().left_right_idx_adjustment(), 1);
}

#[test]
fn a_row_that_the_catalogue_does_not_list_is_missing() {
    let api = catalogue(&[3, 3, 3]);
    let mut rows = empty_buffer();
    assert_eq!(DisplayController::fetch_row(&mut rows, 3, &api), Resolution::Missing);
    assert_eq!(DisplayController::fetch_row(&mut rows, 100, &api), Resolution::Missing);
    assert_eq!(sets_in(&rows), vec![None; 6]);
    let nothing = Api::new();
    assert_eq!(DisplayController::fetch_row(&mut rows, 0, &nothing), Resolution::Missing);
}

#[test]
fn the_seventh_row_takes_the_slot_of_the_first() {
    assert_eq!((BUFFERED_ROWS, NUM_ROWS), (6, 4));
    let api = catalogue(&[3; 8]);
    let mut rows = empty_buffer();
    for true_set_idx in 0..6 {
        assert_eq!(DisplayController::fetch_row(&mut rows, true_set_idx, &api), Resolution::Fetched);
    }
    assert_eq!(sets_in(&rows), vec![Some(0), Some(1), Some(2), Some(3), Some(4), Some(5)]);
    assert!(rows[0].as_mut().unwrap().shift_right(3, 1));
    assert_eq!(DisplayController::fetch_row(&mut rows, 6, &api), Resolution::Fetched);
    assert_eq!(sets_in(&rows), vec![Some(6), Some(1), Some(2), Some(3), Some(4), Some(5)]);
    assert_eq!(rows[0].as_ref().unwrap().title(), "Set 6");
    assert_eq!(rows[0].as_ref().unwrap().left_right_idx_adjustment(), 0);
    // The first row is gone, with its window: it is made anew.
    assert_eq!(DisplayController::fetch_row(&mut rows, 0, &api), Resolution::Fetched);
    assert_eq!(rows[0].as_ref().unwrap().left_right_idx_adjustment(), 0);
    assert_eq!(DisplayController::fetch_row(&mut rows, 6, &api), Resolution::Fetched);
}

#[test]
fn walking_down_seven_rows_replaces_the_first_row_in_its_slot() {
    let api = catalogue(&[3; 10]);
    let mut controller = started(&api);
    for expected in 1..=4 {
        go(&mut controller, Direction::Down);
        assert_eq!(controller.cursor().true_set_idx, expected);
        assert_eq!(controller.row_in_slot(0).map(|row| row.true_set_idx()), Some(0));
    }
    assert_eq!(controller.visible_range(), 2..6);
    assert_eq!(controller.row(0).map(|row| row.title()), Some("Set 0"));
    // With the cursor on set 5 the band is 3..7: set 6 is shown, in the slot
    // of set 0.
    go(&mut controller, Direction::Down);
    assert_eq!(controller.cursor().true_set_idx, 5);
    assert_eq!(controller.visible_range(), 3..7);
    assert_eq!(controller.row_in_slot(0).map(|row| row.true_set_idx()), Some(6));
    assert!(controller.row(0).is_none());
    assert_eq!(controller.row(6).map(|row| row.title()), Some("Set 6"));
    for slot in 1..6 {
        assert_eq!(controller.row_in_slot(slot).map(|row| row.true_set_idx()), Some(slot));
    }
    go(&mut controller, Direction::Down);
    assert_eq!(controller.cursor().true_set_idx, 6);
    assert_eq!(controller.visible_range(), 4..8);
    assert_eq!(controller.row_in_slot(0).map(|row| row.true_set_idx()), Some(6));
    assert_eq!(controller.row_in_slot(1).map(|row| row.true_set_idx()), Some(7));
}

#[test]
fn a_new_controller_shows_nothing_yet() {
    let api = catalogue(&[3; 10]);
    let controller = DisplayController::new(&api, IDS);
    assert!(!controller.is_initialized());
    assert_eq!(controller.cursor(), Cursor::default());
    assert_eq!(controller.visible_range(), 0..4);
    assert_eq!(controller.shown_rows(), 0);
    assert!(controller.needs_to_load());
    assert_eq!(controller.current_step(), Step::Done);
    assert!(controller.row(0).is_none());
    assert_eq!(controller.api_handle().row_count(), 10);
    assert_eq!(controller.img_load_pending().load_count(), 0);
}

#[test]
fn the_first_pass_loads_two_images_and_fills_up_with_placeholders() {
    let api = catalogue(&[3; 10]);
    let mut controller = DisplayController::new(&api, IDS);
    let step = controller.initialize();
    assert!(controller.is_initialized());
    assert_eq!(step, Step::Fetch { true_set_idx: 0, true_item_idx: 0 });
    assert_eq!(controller.current_step(), step);
    assert_eq!(controller.shown_rows(), 4);
    let step = controller.image_fetched(image(0, 0));
    assert_eq!(step, Step::Fetch { true_set_idx: 0, true_item_idx: 1 });
    let step = controller.image_fetched(None);
    assert_eq!(step, Step::Done);
    assert!(controller.needs_to_load());
    assert_eq!(controller.img_load_pending().load_count(), 2);

    let frame = controller.frame();
    assert_eq!(frame.images.len(), NUM_ROWS * ROW_STRIDE);
    assert_eq!(frame.titles.len(), NUM_ROWS);
    assert_eq!(frame.highlighted, None);
    let dims = Dimensions { w: 400, h: 200 };
    let fallback = Dimensions { w: 500, h: 220 };
    let at = |set, item| AdjustedIndices { adjusted_set_idx: set, adjusted_item_idx: item };
    assert_eq!(frame.images[0], ImageWidget { slot: 0, img_id: 1000, dims, indices: at(0, 0) });
    assert_eq!(
        frame.images[1],
        ImageWidget { slot: 1, img_id: IDS.nf_id, dims: fallback, indices: at(0, 1) }
    );
    for slot in 2..24 {
        assert_eq!(
            frame.images[slot],
            ImageWidget {
                slot,
                img_id: IDS.placeholder_id,
                dims: fallback,
                indices: at(slot / 6, slot % 6),
            }
        );
    }
    for row in 0..4 {
        assert_eq!(frame.titles[row].title, format!("Set {}", row));
        assert_eq!(frame.titles[row].above_slot, 6 * row);
        assert_eq!(frame.titles[row].title_slot, row);
    }
    // A second call does nothing.
    assert_eq!(controller.initialize(), Step::Done);
    assert_eq!(controller.img_load_pending().load_count(), 2);
}

#[test]
fn an_outcome_that_nobody_asked_for_is_dropped() {
    let api = catalogue(&[3; 10]);
    let mut controller = started(&api);
    let before = controller.row(0).unwrap().cached(0);
    let loads = controller.img_load_pending().load_count();
    assert_eq!(controller.image_fetched(image(9, 9)), Step::Done);
    assert_eq!(controller.row(0).unwrap().cached(0), before);
    assert_eq!(controller.img_load_pending().load_count(), loads);
}

#[test]
fn ticks_load_two_images_each_until_nothing_is_waiting() {
    let api = catalogue(&[3; 10]);
    let mut controller = DisplayController::new(&api, IDS);
    let step = controller.initialize();
    assert_eq!(drive(&mut controller, step), vec![(0, 0), (0, 1)]);
    // During the cool-down a tick loads nothing.
    let step = controller.load_pending_images_after(100);
    assert_eq!(drive(&mut controller, step), vec![]);
    let step = controller.load_pending_images_after(190);
    assert_eq!(drive(&mut controller, step), vec![(0, 2), (0, 3)]);
    let step = controller.load_pending_images_after(500);
    assert_eq!(drive(&mut controller, step), vec![(0, 4), (0, 5)]);
    let step = controller.load_pending_images_after(500);
    assert_eq!(drive(&mut controller, step), vec![(1, 0), (1, 1)]);
    settle(&mut controller);
    assert!(!controller.needs_to_load());
    for true_set_idx in 0..4 {
        let row = controller.row(true_set_idx).unwrap();
        assert_eq!(row.cached_len(), 6);
        for item in 0..6 {
            assert_eq!(row.cached(item).unwrap().state, ImgState::Loaded);
            assert_eq!(row.cached(item).unwrap().img_id, (1000 * (true_set_idx + 1) + item) as u64);
        }
    }
    // Nothing is waiting: a tick does nothing.
    assert_eq!(controller.load_pending_images_after(500), Step::Done);
    assert_eq!(controller.load_pending_images(), Step::Done);
}

#[test]
fn an_update_shows_the_highlight() {
    let api = catalogue(&[3; 10]);
    let mut controller = started(&api);
    let step = controller.update_image_widgets();
    assert_eq!(step, Step::Done);
    let frame = controller.frame();
    let indices = AdjustedIndices { adjusted_set_idx: 0, adjusted_item_idx: 0 };
    let dims = Dimensions { w: 400, h: 200 };
    assert_eq!(frame.highlighted, Some(ImageWidget { slot: 0, img_id: 1000, dims, indices }));
    assert_eq!(frame.images.len(), 24);
}

#[test]
fn four_steps_to_the_right_move_the_window_once() {
    assert_eq!(ROW_STRIDE, 6);
    let api = catalogue(&[20; 4]);
    let mut controller = started(&api);
    let mut seen = Vec::new();
    for _ in 0..4 {
        go(&mut controller, Direction::Right);
        let cursor = controller.cursor();
        let offset = controller.row(0).unwrap().left_right_idx_adjustment();
        seen.push((cursor.true_item_idx, cursor.adjusted_item_idx, offset));
    }
    assert_eq!(seen, vec![(1, 1, 0), (2, 2, 0), (3, 3, 0), (4, 3, 1)]);
    let frame = controller.frame();
    let indices = AdjustedIndices { adjusted_set_idx: 0, adjusted_item_idx: 3 };
    let dims = Dimensions { w: 400, h: 200 };
    assert_eq!(frame.highlighted, Some(ImageWidget { slot: 3, img_id: 1004, dims, indices }));
    assert_eq!(frame.images[0].img_id, 1001);
    assert_eq!(frame.images[5].img_id, 1006);
    assert_eq!(controller.row(0).unwrap().cached_len(), 7);
    assert_eq!(controller.row(1).unwrap().left_right_idx_adjustment(), 0);
}

#[test]
fn the_cursor_stops_at_the_right_end_of_its_set() {
    let api = catalogue(&[3, 8]);
    let mut controller = started(&api);
    go(&mut controller, Direction::Right);
    go(&mut controller, Direction::Right);
    assert_eq!(controller.cursor().true_item_idx, 2);
    go(&mut controller, Direction::Right);
    assert_eq!(
        controller.cursor(),
        Cursor { true_set_idx: 0, true_item_idx: 2, adjusted_item_idx: 2 }
    );
    assert_eq!(controller.row(0).unwrap().left_right_idx_adjustment(), 0);
    go(&mut controller, Direction::Down);
    for _ in 0..10 {
        go(&mut controller, Direction::Right);
    }
    assert_eq!(
        controller.cursor(),
        Cursor { true_set_idx: 1, true_item_idx: 7, adjusted_item_idx: 3 }
    );
    assert_eq!(controller.row(1).unwrap().left_right_idx_adjustment(), 4);
}

#[test]
fn the_window_comes_back_with_the_cursor() {
    let api = catalogue(&[20; 4]);
    let mut controller = started(&api);
    for _ in 0..6 {
        go(&mut controller, Direction::Right);
    }
    assert_eq!(
        controller.cursor(),
        Cursor { true_set_idx: 0, true_item_idx: 6, adjusted_item_idx: 3 }
    );
    let mut seen = Vec::new();
    for _ in 0..7 {
        go(&mut controller, Direction::Left);
        let cursor = controller.cursor();
        let offset = controller.row(0).unwrap().left_right_idx_adjustment();
        seen.push((cursor.true_item_idx, cursor.adjusted_item_idx, offset));
    }
    assert_eq!(
        seen,
        vec![(5, 2, 3), (4, 1, 3), (3, 1, 2), (2, 1, 1), (1, 1, 0), (0, 0, 0), (0, 0, 0)]
    );
}

#[test]
fn going_down_and_up_again_leads_back() {
    let api = catalogue(&[3; 10]);
    let mut controller = started(&api);
    go(&mut controller, Direction::Down);
    let start = controller.cursor().true_set_idx;
    for steps in 1..=5 {
        for _ in 0..steps {
            go(&mut controller, Direction::Down);
        }
        assert_eq!(controller.cursor().true_set_idx, start + steps);
        for _ in 0..steps {
            go(&mut controller, Direction::Up);
        }
        assert_eq!(controller.cursor().true_set_idx, start);
        let range = controller.visible_range();
        assert!(range.contains(&start));
        assert_eq!(range.end, range.start + NUM_ROWS);
    }
}

#[test]
fn the_band_follows_the_cursor_down_and_stays_on_the_way_back() {
    let api = catalogue(&[3; 10]);
    let mut controller = started(&api);
    let mut bands = Vec::new();
    for _ in 0..4 {
        go(&mut controller, Direction::Down);
        bands.push(controller.visible_range());
    }
    assert_eq!(bands, vec![0..4, 0..4, 1..5, 2..6]);
    go(&mut controller, Direction::Up);
    assert_eq!(controller.visible_range(), 2..6);
    go(&mut controller, Direction::Up);
    assert_eq!(controller.visible_range(), 0..4);
}

#[test]
fn the_cursor_stays_on_the_first_and_on_the_last_set() {
    let api = catalogue(&[3; 3]);
    let mut controller = started(&api);
    assert_eq!(controller.shown_rows(), 3);
    go(&mut controller, Direction::Up);
    assert_eq!(controller.cursor().true_set_idx, 0);
    go(&mut controller, Direction::Down);
    go(&mut controller, Direction::Down);
    assert_eq!(controller.cursor().true_set_idx, 2);
    go(&mut controller, Direction::Down);
    assert_eq!(controller.cursor().true_set_idx, 2);
    assert_eq!(controller.visible_range(), 0..4);
    let frame = controller.frame();
    assert_eq!(frame.images.len(), 18);
    assert_eq!(frame.titles.len(), 3);
    // Two steps down and two steps up from the middle do not lead back.
    go(&mut controller, Direction::Up);
    assert_eq!(controller.cursor().true_set_idx, 1);
    go(&mut controller, Direction::Down);
    go(&mut controller, Direction::Down);
    go(&mut controller, Direction::Up);
    go(&mut controller, Direction::Up);
    assert_eq!(controller.cursor().true_set_idx, 0);
}

#[test]
fn the_cursor_keeps_its_slot_from_row_to_row() {
    let api = catalogue(&[20, 20, 2, 20]);
    let mut controller = started(&api);
    for _ in 0..5 {
        go(&mut controller, Direction::Right);
    }
    assert_eq!(
        controller.cursor(),
        Cursor { true_set_idx: 0, true_item_idx: 5, adjusted_item_idx: 3 }
    );
    go(&mut controller, Direction::Down);
    assert_eq!(
        controller.cursor(),
        Cursor { true_set_idx: 1, true_item_idx: 3, adjusted_item_idx: 3 }
    );
    go(&mut controller, Direction::Up);
    assert_eq!(
        controller.cursor(),
        Cursor { true_set_idx: 0, true_item_idx: 5, adjusted_item_idx: 3 }
    );
    go(&mut controller, Direction::Down);
    go(&mut controller, Direction::Down);
    // The set has two items only: the slot shows the not-found image.
    assert_eq!(
        controller.cursor(),
        Cursor { true_set_idx: 2, true_item_idx: 3, adjusted_item_idx: 3 }
    );
    go(&mut controller, Direction::Right);
    assert_eq!(controller.cursor().true_item_idx, 3);
    go(&mut controller, Direction::Left);
    assert_eq!(
        controller.cursor(),
        Cursor { true_set_idx: 2, true_item_idx: 2, adjusted_item_idx: 2 }
    );
}

#[test]
fn an_empty_catalogue_leaves_the_cursor_where_it_is() {
    let api = Api::new();
    let mut controller = DisplayController::new(&api, IDS);
    assert_eq!(controller.initialize(), Step::Done);
    assert_eq!(controller.shown_rows(), 0);
    for direction in [Direction::Left, Direction::Right, Direction::Up, Direction::Down] {
        assert_eq!(controller.navigate(direction), Step::Done);
        assert_eq!(controller.cursor(), Cursor::default());
    }
    let frame = controller.frame();
    assert!(frame.images.is_empty());
    assert!(frame.titles.is_empty());
    assert_eq!(frame.highlighted, None);
    assert_eq!(controller.move_current_set_left(), Step::Done);
    assert_eq!(controller.move_current_set_right(), Step::Done);
    assert_eq!(controller.move_to_prev_set(), Step::Done);
    assert_eq!(controller.move_to_next_set(), Step::Done);
}

#[test]
fn a_step_asks_for_the_images_that_come_into_view() {
    let api = catalogue(&[20; 10]);
    let mut controller = started(&api);
    for _ in 0..3 {
        go(&mut controller, Direction::Right);
    }
    // The last tick has spent its budget, and nothing was waiting since: the
    // fourth step, which moves the window, shows a placeholder for item 6.
    assert_eq!(controller.img_load_pending().load_count(), 2);
    assert_eq!(controller.move_current_set_right(), Step::Done);
    assert_eq!(controller.cursor().true_item_idx, 4);
    assert_eq!(controller.row(0).unwrap().cached(6).unwrap().state, ImgState::Placeholder);
    assert!(controller.needs_to_load());
    let step = controller.load_pending_images_after(500);
    assert_eq!(step, Step::Fetch { true_set_idx: 0, true_item_idx: 6 });
    assert_eq!(controller.image_fetched(image(0, 6)), Step::Done);
    assert_eq!(controller.row(0).unwrap().cached(6).unwrap().state, ImgState::Loaded);
    assert!(!controller.needs_to_load());
    // The next step moves the window again, and the tick has budget left.
    let step = controller.move_current_set_right();
    assert_eq!(step, Step::Fetch { true_set_idx: 0, true_item_idx: 7 });
    assert_eq!(step, controller.current_step());
    assert_eq!(controller.image_fetched(None), Step::Done);
    assert_eq!(controller.row(0).unwrap().cached(7).unwrap().state, ImgState::NotFound);
    assert_eq!(controller.img_load_pending().load_count(), 2);
}

#[test]
fn a_step_moves_a_window_by_one_item_at_most() {
    let api = catalogue(&[20, 3, 20, 9, 20, 20, 1, 20, 20, 20]);
    let mut controller = started(&api);
    let offsets = |controller: &DisplayController| -> Vec<Option<(usize, usize)>> {
        (0..BUFFERED_ROWS)
            .map(|slot| {
                controller
                    .row_in_slot(slot)
                    .map(|row| (row.true_set_idx(), row.left_right_idx_adjustment()))
            })
            .collect()
    };
    let mut walk = Vec::new();
    for round in 0..6 {
        for _ in 0..(5 + round) {
            walk.push(Direction::Right);
        }
        walk.push(Direction::Down);
        walk.push(Direction::Down);
        for _ in 0..(2 + round) {
            walk.push(Direction::Left);
        }
        walk.push(Direction::Up);
    }
    for direction in walk {
        let before = offsets(&controller);
        go(&mut controller, direction);
        let after = offsets(&controller);
        for slot in 0..BUFFERED_ROWS {
            if let (Some((set_before, was)), Some((set_after, is))) = (before[slot], after[slot]) {
                if set_before == set_after {
                    assert!(is == was || is == was + 1 || is + 1 == was);
                }
            }
        }
        let cursor = controller.cursor();
        let row = controller.row(cursor.true_set_idx).unwrap();
        assert_eq!(cursor.true_item_idx, cursor.adjusted_item_idx + row.left_right_idx_adjustment());
        assert!(cursor.adjusted_item_idx < ROW_STRIDE);
        assert!(controller.visible_range().contains(&cursor.true_set_idx));
        assert!(controller.img_load_pending().load_count() <= 2);
    }
}
