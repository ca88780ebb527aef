//! Logical keys, modifier snapshots and the modifier tracker.
use vstd::prelude::*;

verus! {

/// The identity of a keyboard key, independent of the physical layout.
#[derive(Clone, Copy, Debug, PartialEq, Eq, Structural)]
pub enum Key {
    Shift,
    Control,
    Alt,
    Escape,
    Enter,
    Tab,
    Space,
    Backspace,
    Delete,
    /// A key that produces a character.
    Character(char),
    /// Any other named key, by a code of the event source.
    Other(u32),
}

/// Whether a key or button went down or up.
#[derive(Clone, Copy, Debug, PartialEq, Eq, Structural)]
pub enum ButtonState {
    Pressed,
    Released,
}

/// Which of Shift, Control and Alt were held at one moment.
#[derive(Clone, Copy, Debug, PartialEq, Eq, Structural)]
pub struct ModifierSet {
    pub shift: bool,
    pub control: bool,
    pub alt: bool,
}

impl ModifierSet {
    /// The set in which no modifier is held.
    pub fn none() -> (r: ModifierSet)
        ensures
            r == (ModifierSet { shift: false, control: false, alt: false }),
    {
        ModifierSet { shift: false, control: false, alt: false }
    }
}

/// Whether `k` is one of the keys that the tracker counts.
pub open spec fn is_modifier_spec(k: Key) -> bool {
    k == Key::Shift || k == Key::Control || k == Key::Alt
}

/// Whether `k` is a modifier key.
pub fn is_modifier(k: Key) -> (r: bool)
    ensures
        r == is_modifier_spec(k),
{
    match k {
        Key::Shift | Key::Control | Key::Alt => true,
        _ => false,
    }
}

/// One step of a held-key counter: up on a press, down on a release but
/// never below zero, and never past the largest value it can hold.
pub open spec fn count_step(c: u64, pressed: bool) -> u64 {
    if pressed {
        if c < u64::MAX { (c + 1) as u64 } else { c }
    } else {
        if c > 0 { (c - 1) as u64 } else { 0 }
    }
}

fn step(c: u64, pressed: bool) -> (r: u64)
    ensures
        r == count_step(c, pressed),
{
    if pressed {
        c.saturating_add(1)
    } else {
        c.saturating_sub(1)
    }
}

/// How many physical keys hold each logical modifier.
#[derive(Clone, Copy, Debug, PartialEq, Eq, Structural)]
pub struct ModifierKeys {
    pub shift: u64,
    pub control: u64,
    pub alt: u64,
}

impl ModifierKeys {
    /// The tracker after one key event; keys that are no modifier leave it as it is.
    pub open spec fn key_step(self, k: Key, pressed: bool) -> ModifierKeys {
        match k {
            Key::Shift => ModifierKeys { shift: count_step(self.shift, pressed), ..self },
            Key::Control => ModifierKeys { control: count_step(self.control, pressed), ..self },
            Key::Alt => ModifierKeys { alt: count_step(self.alt, pressed), ..self },
            _ => self,
        }
    }

    /// The modifiers held: each one whose count is above zero.
    pub open spec fn held(self) -> ModifierSet {
        ModifierSet { shift: self.shift > 0, control: self.control > 0, alt: self.alt > 0 }
    }

    /// The tracker at startup: every count zero.
    pub open spec fn new_spec() -> ModifierKeys {
        ModifierKeys { shift: 0, control: 0, alt: 0 }
    }

    /// A tracker in which no modifier is held.
    pub fn new() -> (r: ModifierKeys)
        ensures
            r == ModifierKeys::new_spec(),
    {
        ModifierKeys { shift: 0, control: 0, alt: 0 }
    }

    /// Counts a press or a release of `k` if it is a modifier.
    pub fn on_key_event(&mut self, k: Key, pressed: bool)
        ensures
            *final(self) == old(self).key_step(k, pressed),
    {
        match k {
            Key::Shift => { self.shift = step(self.shift, pressed); },
            Key::Control => { self.control = step(self.control, pressed); },
            Key::Alt => { self.alt = step(self.alt, pressed); },
            _ => {},
        }
    }

    /// Which modifiers are held now.
    pub fn snapshot(&self) -> (r: ModifierSet)
        ensures
            r == self.held(),
    {
        ModifierSet { shift: self.shift > 0, control: self.control > 0, alt: self.alt > 0 }
    }
}

/// The tracker after the key events of `s`, in order, starting from `t`.
pub open spec fn replay_keys(t: ModifierKeys, s: Seq<(Key, bool)>) -> ModifierKeys
    decreases s.len(),
{
    if s.len() == 0 {
        t
    } else {
        replay_keys(t, s.drop_last()).key_step(s.last().0, s.last().1)
    }
}

/// How many keys hold modifier `m` after the events of `s`, counted as a
/// mathematical integer: a press adds one, a release of a held modifier
/// takes one away, a release of one not held changes nothing.
pub open spec fn held_count(s: Seq<(Key, bool)>, m: Key) -> int
    decreases s.len(),
{
    if s.len() == 0 {
        0
    } else {
        let c = held_count(s.drop_last(), m);
        if s.last().0 == m {
            if s.last().1 { c + 1 } else if c > 0 { c - 1 } else { c }
        } else {
            c
        }
    }
}

proof fn lemma_held_count_bounds(s: Seq<(Key, bool)>, m: Key)
    ensures
        0 <= held_count(s, m) <= s.len(),
    decreases s.len(),
{
    if s.len() > 0 {
        lemma_held_count_bounds(s.drop_last(), m);
    }
}

/// From a fresh tracker, over any sequence of key events, each modifier's
/// counter equals the integer count of `held_count`, which never goes below
/// zero, and the snapshot shows a modifier as held exactly when its count is
/// above zero. (A sequence shorter than `u64::MAX` cannot saturate a counter.)
pub proof fn lemma_modifier_counts(s: Seq<(Key, bool)>)
    requires
        s.len() < u64::MAX,
    ensures
        ({
            let t = replay_keys(ModifierKeys { shift: 0, control: 0, alt: 0 }, s);
            &&& held_count(s, Key::Shift) >= 0
            &&& held_count(s, Key::Control) >= 0
            &&& held_count(s, Key::Alt) >= 0
            &&& t.shift == held_count(s, Key::Shift)
            &&& t.control == held_count(s, Key::Control)
            &&& t.alt == held_count(s, Key::Alt)
            &&& t.held().shift == (held_count(s, Key::Shift) > 0)
            &&& t.held().control == (held_count(s, Key::Control) > 0)
            &&& t.held().alt == (held_count(s, Key::Alt) > 0)
        }),
    decreases s.len(),
{
    lemma_held_count_bounds(s, Key::Shift);
    lemma_held_count_bounds(s, Key::Control);
    lemma_held_count_bounds(s, Key::Alt);
    if s.len() > 0 {
        let p = s.drop_last();
        lemma_modifier_counts(p);
        lemma_held_count_bounds(p, Key::Shift);
        lemma_held_count_bounds(p, Key::Control);
        lemma_held_count_bounds(p, Key::Alt);
    }
}

} // verus!
