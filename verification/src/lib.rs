//! Browsing a large catalogue of image rows through a small, fixed viewport.
//!
//! The viewport shows `NUM_ROWS` sets of the catalogue and `ROW_STRIDE` items
//! of each. A cursor walks over the items; the band of sets on screen and the
//! window of each row follow it. Rows are kept in a buffer of
//! `BUFFERED_ROWS` slots, the images of a row in a cache that fills as the
//! window moves, and no more than `SINGLE_LOOP_MAX_LOAD` images are loaded
//! per tick.
//!
//! The library decides; it neither draws nor loads. Its owner loads the
//! images that the controller asks for, draws the frames that it gives, and
//! sleeps and waits as the pacer says.
//!
//! - `json`, `api`: the home document and the catalogue read from it.
//! - `cached`, `row`: the cache entries and one row of the grid.
//! - `window`, `buffer`: the band of sets on screen and the buffer of rows.
//! - `state`, `controller`: the navigation state, its transitions, and the
//!   controller that makes them.
//! - `loading`, `pacer`, `input`, `clock`: the budget of a tick, the frame
//!   pacer, the reaction to input events, and the clock they read.
//! - `laws`: what holds of the navigation whatever the keys.

pub mod api;
pub mod buffer;
pub mod cached;
pub mod clock;
pub mod config;
pub mod controller;
pub mod cursor;
pub mod input;
pub mod json;
pub mod laws;
pub mod loading;
pub mod pacer;
pub mod row;
pub mod state;
pub mod window;
