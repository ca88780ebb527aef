//! Viewports and the state machine of their activity.
use vstd::prelude::*;
use crate::keymap::{unique_keys, Keymap, Mode};

verus! {

/// How far a viewport holds the input focus.
#[derive(Clone, Copy, Debug, PartialEq, Eq, Structural)]
pub enum Activity {
    /// Receives nothing.
    Inactive,
    /// Has pointer focus, without command authority.
    Selected,
    /// Receives the input that resolves into commands.
    Active,
}

/// No two positions of `a` are Active.
pub open spec fn at_most_one_active(a: Seq<Activity>) -> bool {
    forall|i: int, j: int|
        0 <= i < a.len() && 0 <= j < a.len() && #[trigger] a[i] == Activity::Active
            && #[trigger] a[j] == Activity::Active ==> i == j
}

/// The activities after viewport `i` is activated: it becomes Active, a
/// viewport that was Active becomes Inactive, the others keep their state.
pub open spec fn activate_spec(a: Seq<Activity>, i: int) -> Seq<Activity> {
    Seq::new(
        a.len(),
        |j: int|
            if j == i {
                Activity::Active
            } else if a[j] == Activity::Active {
                Activity::Inactive
            } else {
                a[j]
            },
    )
}

/// The activity after a viewport gains pointer focus: only an Inactive one
/// becomes Selected.
pub open spec fn select_spec(x: Activity) -> Activity {
    if x == Activity::Inactive { Activity::Selected } else { x }
}

/// The open viewports, each owning one mode and one activity state; at most
/// one of them is Active.
pub struct Viewports {
    modes: Vec<Mode>,
    activity: Vec<Activity>,
}

impl Viewports {
    /// The activity of each viewport, by position.
    pub closed spec fn activities(&self) -> Seq<Activity> {
        self.activity@
    }

    /// The keymap of each viewport's mode, by position.
    pub closed spec fn keymaps(&self) -> Seq<Keymap> {
        self.modes@.map_values(|m: Mode| m@)
    }

    /// Parallel records of equal length, each keymap well formed, at most one
    /// viewport Active.
    pub open spec fn wf(&self) -> bool {
        &&& self.activities().len() == self.keymaps().len()
        &&& at_most_one_active(self.activities())
        &&& forall|i: int| 0 <= i < self.keymaps().len() ==> unique_keys(#[trigger] self.keymaps()[i])
    }

    /// No viewport.
    pub fn new() -> (r: Viewports)
        ensures
            r.wf(),
            r.activities() == Seq::<Activity>::empty(),
    {
        let r = Viewports { modes: Vec::new(), activity: Vec::new() };
        proof {
            assert(r.keymaps() =~= Seq::<Keymap>::empty());
        }
        r
    }

    /// How many viewports are open.
    pub fn len(&self) -> (r: usize)
        requires
            self.wf(),
        ensures
            r == self.activities().len(),
    {
        self.activity.len()
    }

    /// Opens an Inactive viewport with `mode`; returns its position.
    pub fn open(&mut self, mode: Mode) -> (r: usize)
        requires
            old(self).wf(),
            mode.wf(),
        ensures
            final(self).wf(),
            r == old(self).activities().len(),
            final(self).activities() == old(self).activities().push(Activity::Inactive),
            final(self).keymaps() == old(self).keymaps().push(mode@),
    {
        let r = self.activity.len();
        let ghost km = mode@;
        self.modes.push(mode);
        self.activity.push(Activity::Inactive);
        proof {
            assert(self.keymaps() =~= old(self).keymaps().push(km));
        }
        r
    }

    /// The activity of viewport `i`.
    pub fn activity(&self, i: usize) -> (r: Activity)
        requires
            self.wf(),
            i < self.activities().len(),
        ensures
            r == self.activities()[i as int],
    {
        self.activity[i]
    }

    /// The mode of viewport `i`.
    pub fn mode(&self, i: usize) -> (r: &Mode)
        requires
            self.wf(),
            i < self.activities().len(),
        ensures
            r@ == self.keymaps()[i as int],
            r.wf(),
    {
        &self.modes[i]
    }

    /// Switches viewport `i` to `mode`, leaving its activity as it is.
    pub fn set_mode(&mut self, i: usize, mode: Mode)
        requires
            old(self).wf(),
            mode.wf(),
            i < old(self).activities().len(),
        ensures
            final(self).wf(),
            final(self).activities() == old(self).activities(),
            final(self).keymaps() == old(self).keymaps().update(i as int, mode@),
    {
        let ghost km = mode@;
        self.modes.set(i, mode);
        proof {
            assert(self.keymaps() =~= old(self).keymaps().update(i as int, km));
        }
    }

    /// Gives viewport `i` pointer focus: Inactive becomes Selected.
    pub fn select(&mut self, i: usize)
        requires
            old(self).wf(),
            i < old(self).activities().len(),
        ensures
            final(self).wf(),
            final(self).keymaps() == old(self).keymaps(),
            final(self).activities() == old(self).activities().update(
                i as int,
                select_spec(old(self).activities()[i as int]),
            ),
    {
        if self.activity[i] == Activity::Inactive {
            self.activity.set(i, Activity::Selected);
        }
        proof {
            assert(self.activities() =~= old(self).activities().update(
                i as int,
                select_spec(old(self).activities()[i as int]),
            ));
        }
    }

    /// Takes the focus from viewport `i`: it becomes Inactive.
    pub fn deactivate(&mut self, i: usize)
        requires
            old(self).wf(),
            i < old(self).activities().len(),
        ensures
            final(self).wf(),
            final(self).keymaps() == old(self).keymaps(),
            final(self).activities() == old(self).activities().update(i as int, Activity::Inactive),
    {
        self.activity.set(i, Activity::Inactive);
    }

    /// Makes viewport `i` the Active one; the one that was Active before, if
    /// another, becomes Inactive in the same step.
    pub fn activate(&mut self, i: usize)
        requires
            old(self).wf(),
            i < old(self).activities().len(),
        ensures
            final(self).wf(),
            final(self).keymaps() == old(self).keymaps(),
            final(self).activities() == activate_spec(old(self).activities(), i as int),
    {
        let n = self.activity.len();
        let ghost a0 = self.activity@;
        let mut j: usize = 0;
        while j < n
            invariant
                n == self.activity.len(),
                0 <= j <= n,
                a0 == old(self).activities(),
                self.modes == old(self).modes,
                forall|k: int| 0 <= k < j ==> #[trigger] self.activity@[k] == (if k == i {
                    a0[k]
                } else if a0[k] == Activity::Active {
                    Activity::Inactive
                } else {
                    a0[k]
                }),
                forall|k: int| j <= k < n ==> #[trigger] self.activity@[k] == a0[k],
            decreases n - j,
        {
            if j != i && self.activity[j] == Activity::Active {
                self.activity.set(j, Activity::Inactive);
            }
            j = j + 1;
        }
        self.activity.set(i, Activity::Active);
        proof {
            assert(self.activities() =~= activate_spec(a0, i as int));
        }
    }

    /// The position of the Active viewport, if there is one.
    pub fn active(&self) -> (r: Option<usize>)
        requires
            self.wf(),
        ensures
            r is None <==> forall|k: int| 0 <= k < self.activities().len() ==> #[trigger] self.activities()[k] != Activity::Active,
            r is Some ==> r->Some_0 < self.activities().len() && self.activities()[r->Some_0 as int] == Activity::Active,
    {
        let n = self.activity.len();
        let mut j: usize = 0;
        while j < n
            invariant
                n == self.activity.len(),
                0 <= j <= n,
                forall|k: int| 0 <= k < j ==> #[trigger] self.activity@[k] != Activity::Active,
            decreases n - j,
        {
            if self.activity[j] == Activity::Active {
                return Some(j);
            }
            j = j + 1;
        }
        None
    }

    /// Closes viewport `i`: it becomes Inactive and is removed; its mode is
    /// handed back. The viewports after it move down one position.
    pub fn close(&mut self, i: usize) -> (r: Mode)
        requires
            old(self).wf(),
            i < old(self).activities().len(),
        ensures
            final(self).wf(),
            r@ == old(self).keymaps()[i as int],
            r.wf(),
            final(self).activities() == old(self).activities().remove(i as int),
            final(self).keymaps() == old(self).keymaps().remove(i as int),
    {
        self.activity.set(i, Activity::Inactive);
        self.activity.remove(i);
        let m = self.modes.remove(i);
        proof {
            assert(old(self).keymaps()[i as int] == m@);
            assert(unique_keys(old(self).keymaps()[i as int]));
            assert(self.activity@ =~= old(self).activities().remove(i as int));
            assert(self.keymaps() =~= old(self).keymaps().remove(i as int));
        }
        m
    }
}

/// Activating a viewport keeps at most one Active: it is the Active one
/// afterwards, and a viewport that was Active before is now Inactive. The
/// handoff is one step, so no state with two Active viewports is ever seen.
pub proof fn lemma_single_active(a: Seq<Activity>, i: int)
    requires
        at_most_one_active(a),
        0 <= i < a.len(),
    ensures
        at_most_one_active(activate_spec(a, i)),
        activate_spec(a, i)[i] == Activity::Active,
        forall|j: int| 0 <= j < a.len() && j != i && #[trigger] a[j] == Activity::Active
            ==> activate_spec(a, i)[j] == Activity::Inactive,
{
}

} // verus!
