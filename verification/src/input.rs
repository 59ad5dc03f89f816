//! What the application does with an input event: quit, move the cursor, or
//! nothing. Keys that follow each other too closely are dropped.

use crate::config::NAVIGATION_KEYS_DEBOUNCE_THRESHOLD;
use std::time::Instant;
use vstd::prelude::*;

verus! {

/// A step of the cursor.
#[derive(Clone, Copy, Debug, PartialEq, Eq, Structural)]
pub enum Direction {
    Left,
    Right,
    Up,
    Down,
}

/// A key, as far as the application tells keys apart.
#[derive(Clone, Copy, Debug, PartialEq, Eq, Structural)]
pub enum Key {
    Escape,
    Left,
    Right,
    Up,
    Down,
    Other,
}

/// An input event, as far as the application tells events apart.
#[derive(Clone, Copy, Debug, PartialEq, Eq, Structural)]
pub enum InputEvent {
    /// The window was closed.
    Closed,
    /// A key was pressed or released.
    Keyboard(Key),
    /// Anything else.
    Other,
}

/// What the application does with an event.
#[derive(Clone, Copy, Debug, PartialEq, Eq, Structural)]
pub enum Reaction {
    /// Leave the main loop.
    Quit,
    /// Drop this event and the events that came with it.
    SkipRest,
    /// Move the cursor.
    Move(Direction),
    /// Nothing.
    Nothing,
}

/// Whether `event` is a key that is subject to the debounce: any key but
/// Escape.
pub open spec fn is_debounced_key(event: InputEvent) -> bool {
    event matches InputEvent::Keyboard(key) && key != Key::Escape
}

/// The reaction to `event`, `elapsed_ms` milliseconds after the last key that
/// was taken.
pub open spec fn reaction_to(event: InputEvent, elapsed_ms: nat) -> Reaction {
    match event {
        InputEvent::Closed => Reaction::Quit,
        InputEvent::Keyboard(Key::Escape) => Reaction::Quit,
        InputEvent::Keyboard(key) => if elapsed_ms < NAVIGATION_KEYS_DEBOUNCE_THRESHOLD {
            Reaction::SkipRest
        } else {
            match key {
                Key::Left => Reaction::Move(Direction::Left),
                Key::Right => Reaction::Move(Direction::Right),
                Key::Up => Reaction::Move(Direction::Up),
                Key::Down => Reaction::Move(Direction::Down),
                _ => Reaction::Nothing,
            }
        },
        InputEvent::Other => Reaction::Nothing,
    }
}

/// Whether `event` is a key that is taken, `elapsed_ms` milliseconds after
/// the last one: the debounce then starts anew.
pub open spec fn takes_key(event: InputEvent, elapsed_ms: nat) -> bool {
    is_debounced_key(event) && elapsed_ms >= NAVIGATION_KEYS_DEBOUNCE_THRESHOLD
}

/// Computes `reaction_to`.
pub fn decide_reaction(event: InputEvent, elapsed_ms: u128) -> (reaction: Reaction)
    ensures
        reaction == reaction_to(event, elapsed_ms as nat),
{
    match event {
        InputEvent::Closed => Reaction::Quit,
        InputEvent::Keyboard(Key::Escape) => Reaction::Quit,
        InputEvent::Keyboard(key) => {
            if elapsed_ms < NAVIGATION_KEYS_DEBOUNCE_THRESHOLD {
                Reaction::SkipRest
            } else {
                match key {
                    Key::Left => Reaction::Move(Direction::Left),
                    Key::Right => Reaction::Move(Direction::Right),
                    Key::Up => Reaction::Move(Direction::Up),
                    Key::Down => Reaction::Move(Direction::Down),
                    _ => Reaction::Nothing,
                }
            }
        },
        InputEvent::Other => Reaction::Nothing,
    }
}

/// Remembers when the last key was taken.
pub struct NavigationDebounce {
    navigation_debounce: Instant,
}

impl NavigationDebounce {
    /// When the last key was taken.
    pub closed spec fn last_taken(&self) -> Instant {
        self.navigation_debounce
    }

    /// A debounce that starts now.
    pub fn new() -> (debounce: Self) {
        NavigationDebounce { navigation_debounce: Instant::now() }
    }

    /// Decides what to do with `event`.
    ///
    /// The clock decides only whether a key comes too soon after the last
    /// one. The debounce starts anew with every key that is taken, and with
    /// nothing else.
    pub fn react(&mut self, event: InputEvent) -> (reaction: Reaction)
        ensures
            exists|elapsed_ms: nat|
                reaction == reaction_to(event, elapsed_ms) && (takes_key(event, elapsed_ms)
                    || final(self).last_taken() == old(self).last_taken()),
            !is_debounced_key(event) ==> reaction == reaction_to(event, 0),
            !is_debounced_key(event) ==> final(self).last_taken() == old(self).last_taken(),
    {
        let elapsed_ms = Instant::now().saturating_duration_since(
            self.navigation_debounce,
        ).as_millis();
        let reaction = decide_reaction(event, elapsed_ms);
        let taken = match event {
            InputEvent::Keyboard(Key::Escape) => false,
            InputEvent::Keyboard(_) => elapsed_ms >= NAVIGATION_KEYS_DEBOUNCE_THRESHOLD,
            _ => false,
        };
        if taken {
            self.navigation_debounce = Instant::now();
        }
        reaction
    }
}

} // verus!
