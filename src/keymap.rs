//! Modes: named keymaps from input patterns and modifiers to commands.
use vstd::prelude::*;
use crate::input::{InputEvent, MouseButton, ScrollDirection};
use crate::modifiers::{Key, ModifierSet};

verus! {

/// The part of a semantic input event that a binding matches on.
#[derive(Clone, Copy, Debug, PartialEq, Eq, Structural)]
pub enum InputPattern {
    Keyboard { key: Key, pressed: bool },
    Click { button: MouseButton, pressed: bool },
    Scroll { direction: ScrollDirection },
    MouseMotion,
}

/// The pattern of an event.
pub open spec fn pattern_spec(e: InputEvent) -> InputPattern {
    match e {
        InputEvent::Keyboard { key, pressed, .. } => InputPattern::Keyboard { key, pressed },
        InputEvent::Click { button, pressed } => InputPattern::Click { button, pressed },
        InputEvent::Scroll { direction, .. } => InputPattern::Scroll { direction },
        InputEvent::MouseMotion { .. } => InputPattern::MouseMotion,
    }
}

/// The modifiers an event is resolved with: those it carries for a keyboard
/// event, none for the others, which carry none.
pub open spec fn modifiers_spec(e: InputEvent) -> ModifierSet {
    match e {
        InputEvent::Keyboard { modifiers, .. } => modifiers,
        _ => ModifierSet { shift: false, control: false, alt: false },
    }
}

/// The pattern of an event.
pub fn pattern_of(e: &InputEvent) -> (r: InputPattern)
    ensures
        r == pattern_spec(*e),
{
    match *e {
        InputEvent::Keyboard { key, pressed, .. } => InputPattern::Keyboard { key, pressed },
        InputEvent::Click { button, pressed } => InputPattern::Click { button, pressed },
        InputEvent::Scroll { direction, .. } => InputPattern::Scroll { direction },
        InputEvent::MouseMotion { .. } => InputPattern::MouseMotion,
    }
}

/// The modifiers an event is resolved with.
pub fn modifiers_of(e: &InputEvent) -> (r: ModifierSet)
    ensures
        r == modifiers_spec(*e),
{
    match *e {
        InputEvent::Keyboard { modifiers, .. } => modifiers,
        _ => ModifierSet::none(),
    }
}

/// The error of binding a pattern and modifier set that are bound already.
#[derive(Clone, Copy, Debug, PartialEq, Eq, Structural)]
pub struct DuplicateBinding {
    pub pattern: InputPattern,
    pub modifiers: ModifierSet,
}

struct Binding {
    pattern: InputPattern,
    modifiers: ModifierSet,
    command: String,
}

/// A named keymap. Each (pattern, modifiers) pair is bound at most once.
pub struct Mode {
    name: String,
    keymap: Vec<Binding>,
}

/// A keymap as a sequence of (pattern, modifiers, command) entries, in the
/// order they were bound.
pub type Keymap = Seq<(InputPattern, ModifierSet, Seq<char>)>;

/// No two entries share a pattern and a modifier set.
pub open spec fn unique_keys(m: Keymap) -> bool {
    forall|i: int, j: int|
        0 <= i < m.len() && 0 <= j < m.len() && i != j ==> (#[trigger] m[i].0 != #[trigger] m[j].0
            || m[i].1 != m[j].1)
}

/// Whether the pair is bound in `m`.
pub open spec fn bound_in(m: Keymap, p: InputPattern, mods: ModifierSet) -> bool {
    exists|i: int| 0 <= i < m.len() && #[trigger] m[i].0 == p && m[i].1 == mods
}

/// What the pair resolves to in `m`: the command of its entry, if bound.
pub open spec fn lookup(m: Keymap, p: InputPattern, mods: ModifierSet) -> Option<Seq<char>> {
    if bound_in(m, p, mods) {
        let i = choose|i: int| 0 <= i < m.len() && #[trigger] m[i].0 == p && m[i].1 == mods;
        Some(m[i].2)
    } else {
        None
    }
}

impl View for Mode {
    type V = Keymap;

    closed spec fn view(&self) -> Self::V {
        self.keymap@.map_values(|b: Binding| (b.pattern, b.modifiers, b.command@))
    }
}

impl Mode {
    /// The mode's name.
    pub closed spec fn name_spec(&self) -> Seq<char> {
        self.name@
    }

    /// A keymap that binds every pair at most once.
    pub open spec fn wf(&self) -> bool {
        unique_keys(self@)
    }

    /// An empty mode with the given name.
    pub fn new(name: String) -> (r: Mode)
        ensures
            r@ == Seq::<(InputPattern, ModifierSet, Seq<char>)>::empty(),
            r.name_spec() == name@,
            r.wf(),
    {
        Mode { name, keymap: Vec::new() }
    }

    /// The mode's name.
    pub fn name(&self) -> (r: &String)
        ensures
            r@ == self.name_spec(),
    {
        &self.name
    }

    /// How many bindings the mode holds.
    pub fn len(&self) -> (r: usize)
        ensures
            r == self@.len(),
    {
        self.keymap.len()
    }

    /// Binds the pair to `command`, unless it is bound already: then the mode
    /// is left as it was and the error names the pair.
    pub fn bind(&mut self, pattern: InputPattern, modifiers: ModifierSet, command: String) -> (r: Result<(), DuplicateBinding>)
        requires
            old(self).wf(),
        ensures
            final(self).wf(),
            final(self).name_spec() == old(self).name_spec(),
            bound_in(old(self)@, pattern, modifiers) <==> r is Err,
            r is Err ==> final(self)@ == old(self)@ && r == Err::<(), DuplicateBinding>(DuplicateBinding { pattern, modifiers }),
            r is Ok ==> final(self)@ == old(self)@.push((pattern, modifiers, command@)),
            r is Ok ==> lookup(final(self)@, pattern, modifiers) == Some(command@),
            bound_in(final(self)@, pattern, modifiers),
    {
        let n = self.keymap.len();
        let mut i: usize = 0;
        while i < n
            invariant
                n == self.keymap.len(),
                0 <= i <= n,
                self.wf(),
                self@ == old(self)@,
                self.name@ == old(self).name@,
                forall|j: int| 0 <= j < i ==> !(#[trigger] self@[j].0 == pattern && self@[j].1 == modifiers),
            decreases n - i,
        {
            proof {
                assert(self@[i as int] == (self.keymap@[i as int].pattern, self.keymap@[i as int].modifiers, self.keymap@[i as int].command@));
            }
            if self.keymap[i].pattern == pattern && self.keymap[i].modifiers == modifiers {
                proof {
                    assert(self@[i as int].0 == pattern && self@[i as int].1 == modifiers);
                    assert(bound_in(self@, pattern, modifiers));
                }
                return Err(DuplicateBinding { pattern, modifiers });
            }
            i = i + 1;
        }
        let ghost before = self@;
        self.keymap.push(Binding { pattern, modifiers, command });
        proof {
            assert(self@ =~= before.push((pattern, modifiers, command@)));
            lemma_rebind_fails(before, pattern, modifiers, command@);
        }
        Ok(())
    }

    /// The command bound to the pair, if any; exact match only.
    pub fn resolve(&self, pattern: &InputPattern, modifiers: ModifierSet) -> (r: Option<String>)
        requires
            self.wf(),
        ensures
            r is None <==> lookup(self@, *pattern, modifiers) is None,
            r is Some ==> lookup(self@, *pattern, modifiers) == Some(r->Some_0@),
    {
        let n = self.keymap.len();
        let mut i: usize = 0;
        while i < n
            invariant
                n == self.keymap.len(),
                0 <= i <= n,
                self.wf(),
                forall|j: int| 0 <= j < i ==> !(#[trigger] self@[j].0 == *pattern && self@[j].1 == modifiers),
            decreases n - i,
        {
            proof {
                assert(self@[i as int] == (self.keymap@[i as int].pattern, self.keymap@[i as int].modifiers, self.keymap@[i as int].command@));
            }
            if self.keymap[i].pattern == *pattern && self.keymap[i].modifiers == modifiers {
                let c = self.keymap[i].command.clone();
                proof {
                    assert(self@[i as int].0 == *pattern && self@[i as int].1 == modifiers);
                    let k = choose|k: int| 0 <= k < self@.len() && #[trigger] self@[k].0 == *pattern && self@[k].1 == modifiers;
                    if k != i as int {
                        assert(self@[k].0 != self@[i as int].0 || self@[k].1 != self@[i as int].1);
                    }
                    assert(self@[k] == self@[i as int]);
                }
                return Some(c);
            }
            i = i + 1;
        }
        None
    }

    /// The command that `e` resolves to, if any.
    pub fn resolve_event(&self, e: &InputEvent) -> (r: Option<String>)
        requires
            self.wf(),
        ensures
            r is None <==> lookup(self@, pattern_spec(*e), modifiers_spec(*e)) is None,
            r is Some ==> lookup(self@, pattern_spec(*e), modifiers_spec(*e)) == Some(r->Some_0@),
    {
        let p = pattern_of(e);
        self.resolve(&p, modifiers_of(e))
    }
}

impl Default for Mode {
    /// The default mode: its keymap is empty.
    fn default() -> (r: Mode)
        ensures
            r@ == Seq::<(InputPattern, ModifierSet, Seq<char>)>::empty(),
            r.name_spec() == "Default mode"@,
            r.wf(),
    {
        Mode::new(String::from_str("Default mode"))
    }
}

/// Binding a pair that is not yet bound makes it bound to that command; so a
/// second `bind` of the same pair fails, and since a failed `bind` leaves the
/// keymap as it was, the pair still resolves to the first command.
pub proof fn lemma_rebind_fails(
    m: Keymap,
    p: InputPattern,
    mods: ModifierSet,
    first: Seq<char>,
)
    requires
        unique_keys(m),
        !bound_in(m, p, mods),
    ensures
        unique_keys(m.push((p, mods, first))),
        bound_in(m.push((p, mods, first)), p, mods),
        lookup(m.push((p, mods, first)), p, mods) == Some(first),
{
    let m2 = m.push((p, mods, first));
    assert(m2[m.len() as int].0 == p && m2[m.len() as int].1 == mods);
    let k = choose|k: int| 0 <= k < m2.len() && #[trigger] m2[k].0 == p && m2[k].1 == mods;
    if k < m.len() {
        assert(m[k].0 == p && m[k].1 == mods);
    }
}

} // verus!
