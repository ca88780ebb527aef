use omnicad::input::{classify_scroll, normalize, InputEvent, MouseButton, RawEvent, ScrollDirection, ScrollUnit};
use omnicad::math::{abs_max, abs_min, abs_wide};
use omnicad::modifiers::{is_modifier, ButtonState, Key, ModifierKeys, ModifierSet};

fn key(k: Key, state: ButtonState) -> RawEvent {
    RawEvent::Key { key: k, state, repeat: false }
}

#[test]
fn release_without_press_stays_at_zero() {
    let mut t = ModifierKeys::new();
    t.on_key_event(Key::Shift, false);
    assert_eq!(t.shift, 0);
    assert_eq!(t.snapshot(), ModifierSet::none());
}

#[test]
fn two_keys_for_one_modifier_are_counted() {
    let mut t = ModifierKeys::new();
    t.on_key_event(Key::Control, true);
    t.on_key_event(Key::Control, true);
    t.on_key_event(Key::Control, false);
    assert_eq!(t.control, 1);
    assert!(t.snapshot().control);
    t.on_key_event(Key::Control, false);
    t.on_key_event(Key::Control, false);
    assert_eq!(t.control, 0);
    assert!(!t.snapshot().control);
}

#[test]
fn other_keys_leave_the_counts() {
    let mut t = ModifierKeys::new();
    t.on_key_event(Key::Character('a'), true);
    assert_eq!(t, ModifierKeys::new());
    assert!(is_modifier(Key::Alt));
    assert!(!is_modifier(Key::Escape));
}

#[test]
fn key_release_gives_no_event() {
    let mut t = ModifierKeys::new();
    assert_eq!(normalize(&mut t, key(Key::Character('g'), ButtonState::Released)), None);
    assert_eq!(normalize(&mut t, key(Key::Escape, ButtonState::Released)), None);
}

#[test]
fn modifier_key_gives_no_event() {
    let mut t = ModifierKeys::new();
    assert_eq!(normalize(&mut t, key(Key::Shift, ButtonState::Pressed)), None);
    assert_eq!(t.shift, 1);
    assert_eq!(normalize(&mut t, key(Key::Shift, ButtonState::Released)), None);
    assert_eq!(t.shift, 0);
}

#[test]
fn key_press_carries_the_held_modifiers() {
    let mut t = ModifierKeys::new();
    normalize(&mut t, key(Key::Alt, ButtonState::Pressed));
    let e = normalize(&mut t, RawEvent::Key { key: Key::Character('x'), state: ButtonState::Pressed, repeat: true });
    assert_eq!(
        e,
        Some(InputEvent::Keyboard {
            key: Key::Character('x'),
            pressed: true,
            repeat: true,
            modifiers: ModifierSet { shift: false, control: false, alt: true },
        })
    );
}

#[test]
fn button_press_and_release_are_forwarded() {
    let mut t = ModifierKeys::new();
    assert_eq!(
        normalize(&mut t, RawEvent::Button { button: MouseButton::Left, state: ButtonState::Pressed }),
        Some(InputEvent::Click { button: MouseButton::Left, pressed: true })
    );
    assert_eq!(
        normalize(&mut t, RawEvent::Button { button: MouseButton::Other(7), state: ButtonState::Released }),
        Some(InputEvent::Click { button: MouseButton::Other(7), pressed: false })
    );
}

#[test]
fn scroll_larger_horizontal_delta_wins() {
    assert_eq!(classify_scroll(5, 2), ScrollDirection::Right);
    assert_eq!(classify_scroll(-5, 2), ScrollDirection::Left);
    assert_eq!(classify_scroll(1, -4), ScrollDirection::Down);
}

#[test]
fn scroll_tie_goes_vertical() {
    assert_eq!(classify_scroll(0, 0), ScrollDirection::Up);
    assert_eq!(classify_scroll(3, 3), ScrollDirection::Up);
    assert_eq!(classify_scroll(3, -3), ScrollDirection::Down);
    assert_eq!(classify_scroll(i32::MIN, i32::MAX), ScrollDirection::Left);
}

#[test]
fn scroll_keeps_raw_delta_and_unit() {
    let mut t = ModifierKeys::new();
    assert_eq!(
        normalize(&mut t, RawEvent::Scroll { dx: 5, dy: 2, unit: ScrollUnit::Pixel }),
        Some(InputEvent::Scroll { direction: ScrollDirection::Right, dx: 5, dy: 2, unit: ScrollUnit::Pixel })
    );
}

#[test]
fn magnitudes() {
    assert_eq!(abs_wide(i32::MIN), 2147483648);
    assert_eq!(abs_wide(-3), 3);
    assert_eq!(abs_max(-7, 4), -7);
    assert_eq!(abs_max(3, -3), -3);
    assert_eq!(abs_min(-7, 4), 4);
    assert_eq!(abs_min(2, -9), 2);
}
