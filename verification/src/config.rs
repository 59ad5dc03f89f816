//! Fixed geometry and pacing parameters of the viewport.

use vstd::prelude::*;

verus! {

/// Width of the window, in pixels.
pub const DISPLAY_WIDTH: u32 = 1920;

/// Height of the window, in pixels.
pub const DISPLAY_HEIGHT: u32 = 1080;

/// Milliseconds that must pass after an image load before the per-tick load
/// counter may be cleared. Leaves room for input between bursts of loading.
pub const ITEM_LOADING_LOOP_THRESHOLD: u128 = 190;

/// Milliseconds during which a further navigation key is ignored.
pub const NAVIGATION_KEYS_DEBOUNCE_THRESHOLD: u128 = 180;

/// Minimum number of milliseconds between two frames.
pub const MAIN_LOOP_TIME_FREQUENCY: u64 = 16;

/// `MAIN_LOOP_TIME_FREQUENCY` in nanoseconds.
pub const MAIN_LOOP_TIME_NANOS: u64 = 16_000_000;

/// Number of rows that are on screen at once.
pub const NUM_ROWS: usize = 4;

/// Number of viewport slots reserved for each visible row.
pub const ROW_STRIDE: usize = 6;

/// Number of image widgets of the viewport: one per slot of each visible row.
pub const NUM_OF_CACHED_IMAGES: usize = 24;

/// Number of rows kept in memory.
pub const BUFFERED_ROWS: usize = 6;

/// Number of images that may be loaded during one tick.
pub const SINGLE_LOOP_MAX_LOAD: usize = 2;

/// Width, in source pixels, of the stand-in shown for an image that is not
/// loaded yet or could not be found.
pub const PLACEHOLDER_AND_NOT_FOUND_W: u32 = 500;

/// Height, in source pixels, of that stand-in.
pub const PLACEHOLDER_AND_NOT_FOUND_H: u32 = 220;

} // verus!
