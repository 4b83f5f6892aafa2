//! The input bridge: what the keypad is told when host keys go down and up.
//!
//! The keyboard is sampled once per frame. A sample is two sets of host
//! keys: those that went down since the sample before, and those that went
//! up. Each set stands for at most one keypad key, so a sample gives at most
//! one press and one release.

use crate::keymap::{key_to_btn, button_for, KEY_COUNT};
use std::collections::HashSet;
use vstd::prelude::*;

verus! {

/// A change of one keypad key, as the interpreter is told of it.
#[derive(Clone, Copy, Debug, PartialEq, Eq, Structural)]
pub struct KeyEvent {
    /// The keypad key, `0x0` to `0xF`.
    pub key: usize,
    /// Whether the key went down (`true`) or up (`false`).
    pub pressed: bool,
}

/// The event, if any, that the host keys `keys` give rise to: one for the
/// keypad key they stand for, none where they stand for none.
pub open spec fn event_of(keys: Set<u16>, pressed: bool) -> Seq<KeyEvent> {
    match button_for(keys) {
        Some(key) => seq![KeyEvent { key, pressed }],
        None => Seq::empty(),
    }
}

/// The events of one sample of the keyboard: the press first, then the
/// release, so that a key that went down and up within one sample is seen
/// going down and then up.
pub open spec fn bridged(pressed: Set<u16>, released: Set<u16>) -> Seq<KeyEvent> {
    event_of(pressed, true) + event_of(released, false)
}

/// The key events for one sample of the keyboard, in the order in which the
/// interpreter is to be told of them.
///
/// `pressed` holds the host keys that went down and `released` those that
/// went up. Each set yields at most one event, for the keypad key that
/// [`key_to_btn`] picks from it; host keys outside the key map yield none.
pub fn key_events(pressed: &HashSet<u16>, released: &HashSet<u16>) -> (events: Vec<KeyEvent>)
    ensures
        events@ == bridged(pressed@, released@),
        forall|i: int| 0 <= i < events@.len() ==> (#[trigger] events@[i]).key < KEY_COUNT,
{
    let mut events: Vec<KeyEvent> = Vec::new();
    if let Some(key) = key_to_btn(pressed) {
        events.push(KeyEvent { key, pressed: true });
    }
    if let Some(key) = key_to_btn(released) {
        events.push(KeyEvent { key, pressed: false });
    }
    events
}

} // verus!
