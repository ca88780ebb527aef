use omnicad::dispatch::{normalize_batch, resolve_all, Dispatcher};
use omnicad::input::{InputEvent, MouseButton, RawEvent, ScrollDirection};
use omnicad::keymap::{DuplicateBinding, InputPattern, Mode};
use omnicad::modifiers::{ButtonState, Key, ModifierKeys, ModifierSet};
use omnicad::viewport::{Activity, Viewports};

fn g_press() -> InputPattern {
    InputPattern::Keyboard { key: Key::Character('G'), pressed: true }
}

fn ctrl() -> ModifierSet {
    ModifierSet { shift: false, control: true, alt: false }
}

#[test]
fn default_mode_is_empty() {
    let m = Mode::default();
    assert_eq!(m.len(), 0);
    assert_eq!(m.name(), "Default mode");
    assert_eq!(m.resolve(&g_press(), ModifierSet::none()), None);
}

#[test]
fn second_bind_of_a_pair_fails() {
    let mut m = Mode::new("Edit".to_string());
    assert_eq!(m.bind(g_press(), ModifierSet::none(), "Grab".to_string()), Ok(()));
    assert_eq!(
        m.bind(g_press(), ModifierSet::none(), "Other".to_string()),
        Err(DuplicateBinding { pattern: g_press(), modifiers: ModifierSet::none() })
    );
    assert_eq!(m.len(), 1);
    assert_eq!(m.resolve(&g_press(), ModifierSet::none()), Some("Grab".to_string()));
}

#[test]
fn same_pattern_with_other_modifiers_binds() {
    let mut m = Mode::new("Edit".to_string());
    assert_eq!(m.bind(g_press(), ModifierSet::none(), "Grab".to_string()), Ok(()));
    assert_eq!(m.bind(g_press(), ctrl(), "Grab-Snap".to_string()), Ok(()));
    assert_eq!(m.resolve(&g_press(), ctrl()), Some("Grab-Snap".to_string()));
    assert_eq!(m.resolve(&g_press(), ModifierSet::none()), Some("Grab".to_string()));
    let alt = ModifierSet { shift: false, control: false, alt: true };
    assert_eq!(m.resolve(&g_press(), alt), None);
}

#[test]
fn activating_hands_off_the_focus() {
    let mut v = Viewports::new();
    let a = v.open(Mode::default());
    let b = v.open(Mode::default());
    assert_eq!(v.active(), None);
    v.activate(a);
    assert_eq!(v.active(), Some(a));
    v.select(b);
    assert_eq!(v.activity(b), Activity::Selected);
    v.activate(b);
    assert_eq!(v.activity(a), Activity::Inactive);
    assert_eq!(v.activity(b), Activity::Active);
    assert_eq!(v.active(), Some(b));
}

#[test]
fn select_leaves_an_active_viewport_active() {
    let mut v = Viewports::new();
    let a = v.open(Mode::default());
    v.activate(a);
    v.select(a);
    assert_eq!(v.activity(a), Activity::Active);
    v.deactivate(a);
    assert_eq!(v.activity(a), Activity::Inactive);
}

#[test]
fn closing_returns_the_mode() {
    let mut v = Viewports::new();
    let a = v.open(Mode::new("First".to_string()));
    let b = v.open(Mode::new("Second".to_string()));
    v.activate(a);
    let m = v.close(a);
    assert_eq!(m.name(), "First");
    assert_eq!(v.len(), 1);
    assert_eq!(v.active(), None);
    assert_eq!(v.mode(b - 1).name(), "Second");
    v.set_mode(0, Mode::new("Third".to_string()));
    assert_eq!(v.mode(0).name(), "Third");
}

#[test]
fn control_g_dispatches_grab_snap() {
    let mut m = Mode::new("Edit".to_string());
    m.bind(g_press(), ModifierSet::none(), "Grab".to_string()).unwrap();
    m.bind(g_press(), ctrl(), "Grab-Snap".to_string()).unwrap();
    let mut d = Dispatcher::new();
    let i = d.viewports.open(m);
    d.viewports.activate(i);
    let raws = vec![
        RawEvent::Key { key: Key::Control, state: ButtonState::Pressed, repeat: false },
        RawEvent::Key { key: Key::Character('G'), state: ButtonState::Pressed, repeat: false },
    ];
    assert_eq!(d.tick(&raws), vec!["Grab-Snap".to_string()]);
    let raws = vec![
        RawEvent::Key { key: Key::Character('G'), state: ButtonState::Released, repeat: false },
        RawEvent::Key { key: Key::Control, state: ButtonState::Released, repeat: false },
        RawEvent::Key { key: Key::Character('G'), state: ButtonState::Pressed, repeat: false },
    ];
    assert_eq!(d.tick(&raws), vec!["Grab".to_string()]);
}

#[test]
fn no_active_viewport_drops_everything() {
    let mut m = Mode::new("Edit".to_string());
    m.bind(g_press(), ModifierSet::none(), "Grab".to_string()).unwrap();
    let mut d = Dispatcher::new();
    d.viewports.open(m);
    let raws = vec![
        RawEvent::Key { key: Key::Shift, state: ButtonState::Pressed, repeat: false },
        RawEvent::Key { key: Key::Character('G'), state: ButtonState::Pressed, repeat: false },
    ];
    assert_eq!(d.tick(&raws), Vec::<String>::new());
    assert_eq!(d.modifiers.shift, 1);
}

#[test]
fn motion_in_one_tick_coalesces() {
    let mut t = ModifierKeys::new();
    let raws = vec![RawEvent::Motion { dx: 2, dy: 0 }, RawEvent::Motion { dx: 3, dy: 1 }];
    assert_eq!(normalize_batch(&mut t, &raws), vec![InputEvent::MouseMotion { delta_x: 5, delta_y: 1 }]);
}

#[test]
fn coalesced_motion_stands_where_the_first_came() {
    let mut t = ModifierKeys::new();
    let raws = vec![
        RawEvent::Button { button: MouseButton::Left, state: ButtonState::Pressed },
        RawEvent::Motion { dx: -4, dy: 6 },
        RawEvent::Scroll { dx: 0, dy: -1, unit: omnicad::input::ScrollUnit::Line },
        RawEvent::Motion { dx: 1, dy: -1 },
    ];
    assert_eq!(
        normalize_batch(&mut t, &raws),
        vec![
            InputEvent::Click { button: MouseButton::Left, pressed: true },
            InputEvent::MouseMotion { delta_x: -3, delta_y: 5 },
            InputEvent::Scroll { direction: ScrollDirection::Down, dx: 0, dy: -1, unit: omnicad::input::ScrollUnit::Line },
        ]
    );
}

#[test]
fn unbound_events_are_dropped_in_order() {
    let mut m = Mode::new("View".to_string());
    m.bind(InputPattern::Scroll { direction: ScrollDirection::Up }, ModifierSet::none(), "ZoomIn".to_string()).unwrap();
    m.bind(InputPattern::Click { button: MouseButton::Middle, pressed: true }, ModifierSet::none(), "Orbit".to_string()).unwrap();
    let events = vec![
        InputEvent::Click { button: MouseButton::Middle, pressed: true },
        InputEvent::MouseMotion { delta_x: 1, delta_y: 1 },
        InputEvent::Scroll { direction: ScrollDirection::Up, dx: 0, dy: 1, unit: omnicad::input::ScrollUnit::Line },
        InputEvent::Click { button: MouseButton::Middle, pressed: false },
    ];
    assert_eq!(resolve_all(&m, &events), vec!["Orbit".to_string(), "ZoomIn".to_string()]);
}
