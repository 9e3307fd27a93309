use phi::events::{Events, ImmediateEvents, Key, RawEvent};

const ALL_KEYS: [Key; 6] = [Key::Escape, Key::Up, Key::Down, Key::Left, Key::Right, Key::Space];

#[test]
fn press_sets_edge_then_idle_poll_clears_it() {
    for k in ALL_KEYS {
        let mut e = Events::new();
        e.pump(&vec![RawEvent::KeyDown(k)]);
        assert!(e.is_held(k));
        assert_eq!(e.now.changed(k), Some(true));
        e.pump(&vec![]);
        assert!(e.is_held(k));
        assert_eq!(e.now.changed(k), None);
    }
}

#[test]
fn release_sets_edge_whatever_was_held() {
    for k in ALL_KEYS {
        let mut held = Events::new();
        held.pump(&vec![RawEvent::KeyDown(k)]);
        held.pump(&vec![RawEvent::KeyUp(k)]);
        assert!(!held.is_held(k));
        assert_eq!(held.now.changed(k), Some(false));

        let mut idle = Events::new();
        idle.pump(&vec![RawEvent::KeyUp(k)]);
        assert!(!idle.is_held(k));
        assert_eq!(idle.now.changed(k), Some(false));
    }
}

#[test]
fn repeated_press_of_held_key_gives_no_edge() {
    let mut e = Events::new();
    e.pump(&vec![RawEvent::KeyDown(Key::Left)]);
    e.pump(&vec![RawEvent::KeyDown(Key::Left)]);
    assert!(e.is_held(Key::Left));
    assert_eq!(e.now.key_left, None);
}

#[test]
fn press_and_release_in_one_poll() {
    let mut e = Events::new();
    e.pump(&vec![RawEvent::KeyDown(Key::Space), RawEvent::KeyUp(Key::Space)]);
    assert!(!e.is_held(Key::Space));
    assert_eq!(e.now.key_space, Some(false));
}

#[test]
fn quit_signal_lasts_one_poll() {
    let mut e = Events::new();
    e.pump(&vec![RawEvent::Other, RawEvent::Quit]);
    assert!(e.now.quit);
    e.pump(&vec![]);
    assert!(!e.now.quit);
}

#[test]
fn other_events_are_ignored() {
    let mut e = Events::new();
    e.pump(&vec![RawEvent::Other]);
    assert_eq!(e.now, ImmediateEvents::new());
    assert_eq!(e, Events::new());
}

#[test]
fn held_keys_are_independent() {
    let mut e = Events::new();
    e.pump(&vec![RawEvent::KeyDown(Key::Up), RawEvent::KeyDown(Key::Right)]);
    e.pump(&vec![RawEvent::KeyUp(Key::Up)]);
    assert!(!e.key_up);
    assert!(e.key_right);
    assert_eq!(e.now.key_right, None);
    assert_eq!(e.now.key_up, Some(false));
}
