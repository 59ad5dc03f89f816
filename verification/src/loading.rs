//! Throttling of image loads: a per-tick counter with a cool-down.

use crate::config::ITEM_LOADING_LOOP_THRESHOLD;
use crate::config::SINGLE_LOOP_MAX_LOAD;
use std::time::Instant;
use vstd::prelude::*;

verus! {

/// What the scheduler knows: how many images were loaded during the current
/// tick, whether a placeholder is still waiting for its image, and when the
/// last image was loaded.
pub struct LoadBudget {
    pub loads_this_tick: nat,
    pub needs_more: bool,
    pub last_load_at: Option<Instant>,
}

impl LoadBudget {
    /// The budget of a fresh tick: nothing loaded, nothing pending, no cool-down.
    pub open spec fn cleared() -> LoadBudget {
        LoadBudget { loads_this_tick: 0, needs_more: false, last_load_at: None }
    }

    /// Whether another image may be loaded during this tick.
    pub open spec fn can_load_more(self) -> bool {
        self.loads_this_tick < SINGLE_LOOP_MAX_LOAD
    }

    /// The budget after a reset attempted `elapsed_ms` milliseconds after the
    /// last load: unchanged while the cool-down lasts, cleared otherwise.
    pub open spec fn after_reset(self, elapsed_ms: nat) -> LoadBudget {
        if self.last_load_at is Some && elapsed_ms < ITEM_LOADING_LOOP_THRESHOLD {
            self
        } else {
            LoadBudget::cleared()
        }
    }
}

/// Tells the frame loop that images are still to be loaded, and limits how
/// many are loaded per tick.
pub struct ImgLoadingNotifier {
    needs_to_load: bool,
    single_loop_load_count: usize,
    last_download_time: Option<Instant>,
}

impl View for ImgLoadingNotifier {
    type V = LoadBudget;

    closed spec fn view(&self) -> LoadBudget {
        LoadBudget {
            loads_this_tick: self.single_loop_load_count as nat,
            needs_more: self.needs_to_load,
            last_load_at: self.last_download_time,
        }
    }
}

impl ImgLoadingNotifier {
    /// A notifier at start-up: nothing loaded yet, and a first round of
    /// loading is due.
    pub fn new() -> (notifier: Self)
        ensures
            notifier@ == (LoadBudget { needs_more: true, ..LoadBudget::cleared() }),
    {
        ImgLoadingNotifier {
            needs_to_load: true,
            single_loop_load_count: 0,
            last_download_time: None,
        }
    }

    /// Whether a placeholder is waiting for its image.
    pub fn needs_to_load(&self) -> (pending: bool)
        ensures
            pending == self@.needs_more,
    {
        self.needs_to_load
    }

    /// Number of images loaded during the current tick.
    pub fn load_count(&self) -> (count: usize)
        ensures
            count == self@.loads_this_tick,
    {
        self.single_loop_load_count
    }

    /// Whether a load has been recorded since the last successful reset.
    pub fn is_cooling_down(&self) -> (cooling: bool)
        ensures
            cooling == (self@.last_load_at is Some),
    {
        self.last_download_time.is_some()
    }

    /// Whether another image may be loaded during this tick.
    pub fn can_load_more(&self) -> (can: bool)
        ensures
            can == self@.can_load_more(),
    {
        self.single_loop_load_count < SINGLE_LOOP_MAX_LOAD
    }

    /// Records that a placeholder is in view and could not be replaced.
    pub fn request_more(&mut self)
        ensures
            final(self)@ == (LoadBudget { needs_more: true, ..old(self)@ }),
    {
        self.needs_to_load = true;
    }

    /// Starts a new tick unless the cool-down after the last load still lasts.
    ///
    /// The clock decides whether the cool-down is over, so the notifier is
    /// afterwards either unchanged or cleared; it is cleared whenever no load
    /// was recorded.
    pub fn reset(&mut self)
        ensures
            final(self)@ == old(self)@ || final(self)@ == LoadBudget::cleared(),
            old(self)@.last_load_at is None ==> final(self)@ == LoadBudget::cleared(),
    {
        let elapsed_ms: u128 = match &self.last_download_time {
            Some(last_update) => Instant::now().saturating_duration_since(*last_update).as_millis(),
            None => 0,
        };
        self.reset_after(elapsed_ms);
    }

    /// `reset`, for a given number of milliseconds since the last load.
    pub fn reset_after(&mut self, elapsed_ms: u128)
        ensures
            final(self)@ == old(self)@.after_reset(elapsed_ms as nat),
    {
        if self.last_download_time.is_some() && elapsed_ms < ITEM_LOADING_LOOP_THRESHOLD {
            return ;
        }
        self.single_loop_load_count = 0;
        self.needs_to_load = false;
        self.last_download_time = None;
    }

    /// Records one loaded image and restarts the cool-down.
    pub fn image_loaded(&mut self)
        requires
            old(self)@.loads_this_tick < usize::MAX,
        ensures
            final(self)@.loads_this_tick == old(self)@.loads_this_tick + 1,
            final(self)@.needs_more == old(self)@.needs_more,
            final(self)@.last_load_at is Some,
    {
        self.single_loop_load_count += 1;
        self.last_download_time = Some(Instant::now());
    }
}

} // verus!
