//! Raw input events and the key presses among them.

use vstd::prelude::*;
use evdev::{EventType, InputEvent, InputEventKind};

verus! {

/// The event type of key events.
pub const KEY_EVENT: u16 = 1;

/// The value that a key event carries when the key goes down. A release
/// carries 0, a repeat 2.
pub const PRESSED: i32 = 1;

/// An input event as the kernel sends it, without its time stamp.
#[derive(Clone, Copy, PartialEq, Eq, Debug, Structural)]
pub struct RawEvent {
    pub event_type: u16,
    pub code: u16,
    pub value: i32,
}

impl RawEvent {
    /// The code of the key that this event reports as pressed, if it
    /// reports one: a release, a repeat or another kind of event gives
    /// `None`.
    pub open spec fn pressed_key(self) -> Option<u16> {
        if self.event_type == KEY_EVENT && self.value == PRESSED {
            Some(self.code)
        } else {
            None
        }
    }

    /// Computes the code of the key that this event reports as pressed.
    pub fn key_press(&self) -> (key: Option<u16>)
        ensures
            key == self.pressed_key(),
    {
        match key_code(self.event_type, self.code, self.value) {
            Some(code) => if self.value == PRESSED {
                Some(code)
            } else {
                None
            },
            None => None,
        }
    }
}

/// Asks `evdev::InputEvent::kind` whether an event with these fields is a
/// key event, and for which key. `kind` goes by the event type alone: for
/// the type of key events it gives the key that wraps the event's code, and
/// for every other type something else.
#[verifier::external_body]
fn key_code(event_type: u16, code: u16, value: i32) -> (key: Option<u16>)
    ensures
        key == if event_type == KEY_EVENT {
            Some(code)
        } else {
            None
        },
{
    match InputEvent::new(EventType(event_type), code, value).kind() {
        InputEventKind::Key(key) => Some(key.code()),
        _ => None,
    }
}

/// The keys that a batch of events reports as pressed, in the order of the
/// events.
pub open spec fn pressed_keys(events: Seq<RawEvent>) -> Seq<u16>
    decreases events.len(),
{
    if events.len() == 0 {
        seq![]
    } else {
        let earlier = pressed_keys(events.drop_last());
        match events.last().pressed_key() {
            Some(code) => earlier.push(code),
            None => earlier,
        }
    }
}

/// Picks the key presses out of a batch of events.
pub fn handle_input(events: &Vec<RawEvent>) -> (keys: Vec<u16>)
    ensures
        keys@ == pressed_keys(events@),
{
    let mut keys: Vec<u16> = Vec::new();
    let n: usize = events.len();
    let mut i: usize = 0;
    while i < n
        invariant
            n == events@.len(),
            i <= n,
            keys@ == pressed_keys(events@.subrange(0, i as int)),
        decreases n - i,
    {
        proof {
            let upto = events@.subrange(0, i + 1);
            assert(upto.drop_last() =~= events@.subrange(0, i as int));
            assert(upto.last() == events@[i as int]);
        }
        match events[i].key_press() {
            Some(code) => {
                keys.push(code);
            },
            None => {},
        }
        i += 1;
    }
    assert(events@.subrange(0, n as int) =~= events@);
    keys
}

/// Key presses come out once per pressing event and in order: the keys of
/// two batches in a row are the keys of the first followed by those of the
/// second.
pub proof fn lemma_pressed_keys_concat(first: Seq<RawEvent>, second: Seq<RawEvent>)
    ensures
        pressed_keys(first + second) == pressed_keys(first) + pressed_keys(second),
    decreases second.len(),
{
    if second.len() == 0 {
        assert(first + second =~= first);
        assert(pressed_keys(first) + pressed_keys(second) =~= pressed_keys(first));
    } else {
        assert((first + second).drop_last() =~= first + second.drop_last());
        assert((first + second).last() == second.last());
        lemma_pressed_keys_concat(first, second.drop_last());
        match second.last().pressed_key() {
            Some(code) => {
                assert((pressed_keys(first) + pressed_keys(second.drop_last())).push(code)
                    =~= pressed_keys(first) + pressed_keys(second.drop_last()).push(code));
            },
            None => {},
        }
    }
}

/// A batch gives at most one key per event, and each key it gives is the
/// code of an event of the batch that reports a press.
pub proof fn lemma_pressed_keys_come_from_events(events: Seq<RawEvent>)
    ensures
        pressed_keys(events).len() <= events.len(),
        forall|k: int|
            0 <= k < pressed_keys(events).len() ==> exists|i: int|
                0 <= i < events.len() && events[i].pressed_key() == Some(
                    #[trigger] pressed_keys(events)[k],
                ),
    decreases events.len(),
{
    if events.len() > 0 {
        let shorter = events.drop_last();
        lemma_pressed_keys_come_from_events(shorter);
        assert forall|k: int| 0 <= k < pressed_keys(events).len() implies exists|i: int|
            0 <= i < events.len() && events[i].pressed_key() == Some(
                #[trigger] pressed_keys(events)[k],
            ) by {
            if k < pressed_keys(shorter).len() {
                let i = choose|i: int|
                    0 <= i < shorter.len() && shorter[i].pressed_key() == Some(
                        pressed_keys(shorter)[k],
                    );
                assert(events[i] == shorter[i]);
            } else {
                assert(events[events.len() - 1] == events.last());
            }
        }
    }
}

} // verus!
