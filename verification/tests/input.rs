use evdev::{EventType, InputEvent, InputEventKind, Key};
use snake::input::{handle_input, RawEvent, KEY_EVENT, PRESSED};
use snake::session::{KEY_D, KEY_ESC, KEY_J, KEY_LEFT, KEY_RIGHT};

fn raw(event_type: u16, code: u16, value: i32) -> RawEvent {
    RawEvent { event_type, code, value }
}

#[test]
fn key_event_type_is_that_of_the_device_layer() {
    assert_eq!(KEY_EVENT, EventType::KEY.0);
    assert_eq!(KEY_EVENT, 1);
    assert_eq!(PRESSED, 1);
}

#[test]
fn key_codes_are_those_of_the_device_layer() {
    assert_eq!(KEY_ESC, Key::KEY_ESC.code());
    assert_eq!(KEY_D, Key::KEY_D.code());
    assert_eq!(KEY_J, Key::KEY_J.code());
    assert_eq!(KEY_LEFT, Key::KEY_LEFT.code());
    assert_eq!(KEY_RIGHT, Key::KEY_RIGHT.code());
}

#[test]
fn pressed_key_is_reported() {
    assert_eq!(raw(1, 32, 1).key_press(), Some(32));
    assert_eq!(raw(1, 105, 1).key_press(), Some(105));
    assert_eq!(raw(1, 0, 1).key_press(), Some(0));
    assert_eq!(raw(1, u16::MAX, 1).key_press(), Some(u16::MAX));
}

#[test]
fn released_and_repeated_keys_are_not_reported() {
    assert_eq!(raw(1, 32, 0).key_press(), None);
    assert_eq!(raw(1, 32, 2).key_press(), None);
    assert_eq!(raw(1, 32, -1).key_press(), None);
}

#[test]
fn other_event_kinds_are_not_reported() {
    for event_type in [0u16, 2, 3, 4, 5, 0x11, 0x12, 0x15, 0x17, 0x0101, u16::MAX] {
        assert_eq!(raw(event_type, 32, 1).key_press(), None);
        assert_eq!(raw(event_type, 1, 1).key_press(), None);
    }
}

#[test]
fn key_press_agrees_with_the_device_layer() {
    for event_type in 0..40u16 {
        for code in [0u16, 1, 32, 36, 105, 106, 700] {
            for value in [0, 1, 2] {
                let event = InputEvent::new(EventType(event_type), code, value);
                let expected = match event.kind() {
                    InputEventKind::Key(key) if event.value() == 1 => Some(key.code()),
                    _ => None,
                };
                let converted = raw(event.event_type().0, event.code(), event.value());
                assert_eq!(converted.key_press(), expected);
            }
        }
    }
}

#[test]
fn handle_input_keeps_presses_in_order() {
    let events = vec![
        raw(1, 32, 1),
        raw(0, 0, 0),
        raw(1, 32, 0),
        raw(4, 4, 458759),
        raw(1, 106, 1),
        raw(1, 106, 2),
        raw(1, 106, 2),
        raw(2, 0, 1),
        raw(1, 1, 1),
        raw(1, 106, 0),
    ];
    assert_eq!(handle_input(&events), vec![32, 106, 1]);
}

#[test]
fn handle_input_of_nothing_is_nothing() {
    assert_eq!(handle_input(&vec![]), Vec::<u16>::new());
    assert_eq!(handle_input(&vec![raw(0, 0, 0), raw(1, 5, 0)]), Vec::<u16>::new());
}

#[test]
fn handle_input_keeps_repeated_presses() {
    let events = vec![raw(1, 36, 1), raw(1, 36, 1), raw(1, 36, 1)];
    assert_eq!(handle_input(&events), vec![36, 36, 36]);
}

#[test]
fn handle_input_of_two_batches() {
    let first = vec![raw(1, 32, 1), raw(1, 32, 0)];
    let second = vec![raw(0, 0, 0), raw(1, 105, 1), raw(1, 1, 1)];
    let mut both = first.clone();
    both.extend(second.iter().copied());
    let mut keys = handle_input(&first);
    keys.extend(handle_input(&second));
    assert_eq!(handle_input(&both), keys);
    assert_eq!(keys, vec![32, 105, 1]);
}
