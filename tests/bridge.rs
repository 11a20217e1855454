use cafe_auth::events::DeferredSlot;
use cafe_auth::input::{Key, KeyModifiers, ScrollEvent, TouchEventType};
use cafe_auth::window::Window;

#[test]
fn wake_with_empty_slot_only_flushes() {
    let mut slot: DeferredSlot<u32> = DeferredSlot::new();
    let batches = slot.wake();
    assert_eq!(batches, vec![Vec::<u32>::new()]);
    assert!(slot.is_empty());
}

#[test]
fn wake_delivers_the_queued_event_once() {
    let mut slot: DeferredSlot<u32> = DeferredSlot::new();
    slot.put(7);
    assert!(!slot.is_empty());
    let batches = slot.wake();
    assert_eq!(batches, vec![vec![], vec![7]]);
    assert!(slot.is_empty());
    assert_eq!(slot.wake(), vec![Vec::<u32>::new()]);
}

#[test]
fn newer_event_replaces_undelivered_one() {
    let mut slot: DeferredSlot<u32> = DeferredSlot::new();
    slot.put(1);
    slot.put(2);
    assert_eq!(slot.wake(), vec![vec![], vec![2]]);
}

#[test]
fn take_empties_the_slot() {
    let mut slot: DeferredSlot<u32> = DeferredSlot::new();
    assert_eq!(slot.take(), None);
    slot.put(5);
    assert_eq!(slot.take(), Some(5));
    assert_eq!(slot.take(), None);
}

#[test]
fn arrow_key_is_deferred_to_the_next_wake() {
    let mut w = Window::new();
    w.set_pointer(12, 34);
    w.handle_key(None, Key::Down, KeyModifiers::empty());
    let batches = w.wake();
    assert_eq!(
        batches,
        vec![
            vec![],
            vec![ScrollEvent { delta_x: 0, delta_y: -76, origin_x: 12, origin_y: 34, phase: TouchEventType::Down }],
        ]
    );
    assert_eq!(w.wake(), vec![Vec::<ScrollEvent>::new()]);
}

#[test]
fn other_keys_leave_the_slot_alone() {
    let mut w = Window::new();
    w.handle_key(Some('a'), Key::A, KeyModifiers::empty());
    assert!(w.deferred.is_empty());
    w.handle_key(None, Key::Up, KeyModifiers::empty());
    w.handle_key(None, Key::Left, KeyModifiers::empty());
    assert_eq!(
        w.wake(),
        vec![vec![], vec![ScrollEvent { delta_x: 0, delta_y: 76, origin_x: 0, origin_y: 0, phase: TouchEventType::Up }]]
    );
}

#[test]
fn wheel_uses_the_pointer() {
    let mut w = Window::new();
    w.set_pointer(-5, 9);
    assert_eq!(
        w.wheel(0, cafe_auth::input::ScrollDirection::Down),
        Some(ScrollEvent { delta_x: 0, delta_y: -38, origin_x: -5, origin_y: 9, phase: TouchEventType::Down })
    );
}
