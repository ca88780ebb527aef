//! Raw device events and their normalization into semantic input events.
use vstd::prelude::*;
use crate::math::{abs_spec, abs_wide};
use crate::modifiers::{is_modifier, is_modifier_spec, ButtonState, Key, ModifierKeys, ModifierSet};

verus! {

/// A mouse button.
#[derive(Clone, Copy, Debug, PartialEq, Eq, Structural)]
pub enum MouseButton {
    Left,
    Right,
    Middle,
    Other(u16),
}

/// The unit of a scroll delta.
#[derive(Clone, Copy, Debug, PartialEq, Eq, Structural)]
pub enum ScrollUnit {
    Line,
    Pixel,
}

/// The cardinal direction that a scroll is classified into.
#[derive(Clone, Copy, Debug, PartialEq, Eq, Structural)]
pub enum ScrollDirection {
    Up,
    Down,
    Left,
    Right,
}

/// One event as the device event source delivers it. Deltas are in whole
/// units of the source (lines or pixels).
#[derive(Clone, Copy, Debug, PartialEq, Eq, Structural)]
pub enum RawEvent {
    Key { key: Key, state: ButtonState, repeat: bool },
    Button { button: MouseButton, state: ButtonState },
    Scroll { dx: i32, dy: i32, unit: ScrollUnit },
    Motion { dx: i32, dy: i32 },
}

/// A normalized, device-independent input event.
#[derive(Clone, Copy, Debug, PartialEq, Eq, Structural)]
pub enum InputEvent {
    Keyboard { key: Key, pressed: bool, repeat: bool, modifiers: ModifierSet },
    Click { button: MouseButton, pressed: bool },
    Scroll { direction: ScrollDirection, dx: i32, dy: i32, unit: ScrollUnit },
    /// Pointer motion; the deltas of several events of one tick may be summed.
    MouseMotion { delta_x: i64, delta_y: i64 },
}

/// The direction of a scroll: the axis of larger magnitude wins, a tie goes
/// to the vertical axis; positive `dx` is right, negative `dy` is down.
pub open spec fn scroll_direction_spec(dx: int, dy: int) -> ScrollDirection {
    if abs_spec(dx) > abs_spec(dy) {
        if dx > 0 { ScrollDirection::Right } else { ScrollDirection::Left }
    } else {
        if dy < 0 { ScrollDirection::Down } else { ScrollDirection::Up }
    }
}

/// Classifies a scroll delta into one cardinal direction.
pub fn classify_scroll(dx: i32, dy: i32) -> (r: ScrollDirection)
    ensures
        r == scroll_direction_spec(dx as int, dy as int),
{
    if abs_wide(dx) > abs_wide(dy) {
        if dx > 0 { ScrollDirection::Right } else { ScrollDirection::Left }
    } else {
        if dy < 0 { ScrollDirection::Down } else { ScrollDirection::Up }
    }
}

/// What one raw event becomes, given the modifiers held after it was counted:
/// modifier keys and releases of other keys give nothing, every other raw
/// event gives exactly one semantic event.
pub open spec fn normalize_spec(raw: RawEvent, held: ModifierSet) -> Option<InputEvent> {
    match raw {
        RawEvent::Key { key, state, repeat } => {
            if is_modifier_spec(key) || state == ButtonState::Released {
                None
            } else {
                Some(InputEvent::Keyboard { key, pressed: true, repeat, modifiers: held })
            }
        },
        RawEvent::Button { button, state } => Some(
            InputEvent::Click { button, pressed: state == ButtonState::Pressed },
        ),
        RawEvent::Scroll { dx, dy, unit } => Some(
            InputEvent::Scroll {
                direction: scroll_direction_spec(dx as int, dy as int),
                dx,
                dy,
                unit,
            },
        ),
        RawEvent::Motion { dx, dy } => Some(InputEvent::MouseMotion { delta_x: dx as i64, delta_y: dy as i64 }),
    }
}

/// The tracker after one raw event: only key events of modifiers change it.
pub open spec fn track_spec(t: ModifierKeys, raw: RawEvent) -> ModifierKeys {
    match raw {
        RawEvent::Key { key, state, repeat } => t.key_step(key, state == ButtonState::Pressed),
        _ => t,
    }
}

/// Counts `raw` in the tracker, then normalizes it against the modifiers held.
pub fn normalize(tracker: &mut ModifierKeys, raw: RawEvent) -> (r: Option<InputEvent>)
    ensures
        *final(tracker) == track_spec(*old(tracker), raw),
        r == normalize_spec(raw, final(tracker).held()),
{
    match raw {
        RawEvent::Key { key, state, repeat } => {
            let pressed = state == ButtonState::Pressed;
            tracker.on_key_event(key, pressed);
            if is_modifier(key) || !pressed {
                None
            } else {
                Some(InputEvent::Keyboard { key, pressed: true, repeat, modifiers: tracker.snapshot() })
            }
        },
        RawEvent::Button { button, state } => Some(
            InputEvent::Click { button, pressed: state == ButtonState::Pressed },
        ),
        RawEvent::Scroll { dx, dy, unit } => Some(
            InputEvent::Scroll { direction: classify_scroll(dx, dy), dx, dy, unit },
        ),
        RawEvent::Motion { dx, dy } => Some(InputEvent::MouseMotion { delta_x: dx as i64, delta_y: dy as i64 }),
    }
}

/// A release of a key that is no modifier gives no semantic event, whatever
/// the tracker holds; the tracker is left as it was.
pub proof fn lemma_release_is_silent(t: ModifierKeys, key: Key, repeat: bool)
    requires
        !is_modifier_spec(key),
    ensures
        ({
            let raw = RawEvent::Key { key, state: ButtonState::Released, repeat };
            &&& normalize_spec(raw, track_spec(t, raw).held()) is None
            &&& track_spec(t, raw) == t
        }),
{
}

/// Scroll classification depends on the two deltas alone: the horizontal axis
/// is chosen exactly when its magnitude is strictly larger, so a tie (a zero
/// delta included) always gives Up or Down.
pub proof fn lemma_scroll_axis(dx: int, dy: int)
    ensures
        abs_spec(dx) > abs_spec(dy) ==> (scroll_direction_spec(dx, dy) == ScrollDirection::Left
            || scroll_direction_spec(dx, dy) == ScrollDirection::Right),
        abs_spec(dx) <= abs_spec(dy) ==> (scroll_direction_spec(dx, dy) == ScrollDirection::Up
            || scroll_direction_spec(dx, dy) == ScrollDirection::Down),
{
}

} // verus!
