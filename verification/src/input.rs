//! Input events and what the frame loop does with each of them.

use crate::keys::{key_down, key_up, KeyManager};
use vstd::prelude::*;
use vstd::string::StringExecFns;

verus! {

/// An event delivered by the input system. Keys are named as the input
/// system spells them: `"Left"`, `"Right"`, `"Up"`, `"Escape"` and so on.
pub enum InputEvent {
    /// The window was asked to close.
    Quit,
    /// The named key went down.
    KeyDown(String),
    /// The named key went up.
    KeyUp(String),
}

impl InputEvent {
    /// The frame loop ends on a quit request and when Escape goes down.
    pub open spec fn ends_loop(self) -> bool {
        match self {
            InputEvent::Quit => true,
            InputEvent::KeyDown(name) => name@ == "Escape"@,
            InputEvent::KeyUp(_) => false,
        }
    }

    /// The key states after the event. An event that ends the loop is not
    /// recorded; every other key event sets the state of its key.
    pub open spec fn applied(self, states: Map<Seq<char>, bool>) -> Map<Seq<char>, bool> {
        match self {
            InputEvent::Quit => states,
            InputEvent::KeyDown(name) => if name@ == "Escape"@ {
                states
            } else {
                states.insert(name@, true)
            },
            InputEvent::KeyUp(name) => states.insert(name@, false),
        }
    }
}

/// Handles one input event: records a key change in `key_manager`, and
/// tells whether the frame loop goes on.
pub fn handle_event(key_manager: &mut KeyManager, event: InputEvent) -> (running: bool)
    ensures
        running == !event.ends_loop(),
        final(key_manager)@ == event.applied(old(key_manager)@),
{
    match event {
        InputEvent::Quit => false,
        InputEvent::KeyDown(name) => {
            if name == String::from_str("Escape") {
                false
            } else {
                key_down(key_manager, name);
                true
            }
        },
        InputEvent::KeyUp(name) => {
            key_up(key_manager, name);
            true
        },
    }
}

} // verus!
