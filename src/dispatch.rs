//! The per-tick dispatcher: raw events in, command identifiers out.
use vstd::prelude::*;
use crate::input::{normalize, normalize_spec, track_spec, InputEvent, RawEvent};
use crate::keymap::{lookup, modifiers_spec, pattern_spec, Keymap, Mode};
use crate::modifiers::ModifierKeys;
use crate::viewport::{Activity, Viewports};

verus! {

/// A motion event whose deltas are those of `e` plus the given ones.
pub open spec fn add_motion(e: InputEvent, dx: i64, dy: i64) -> InputEvent {
    match e {
        InputEvent::MouseMotion { delta_x, delta_y } => InputEvent::MouseMotion {
            delta_x: (delta_x + dx) as i64,
            delta_y: (delta_y + dy) as i64,
        },
        _ => e,
    }
}

/// What a batch of raw events gives, in the order received, from tracker
/// `t`: the tracker afterwards, the semantic events, and the position of the
/// one motion event among them, if any. Every motion event of the batch is
/// summed into that one, which stands where the first motion event came.
pub open spec fn batch_spec(t: ModifierKeys, raws: Seq<RawEvent>) -> (ModifierKeys, Seq<InputEvent>, Option<int>)
    decreases raws.len(),
{
    if raws.len() == 0 {
        (t, Seq::empty(), None)
    } else {
        let prev = batch_spec(t, raws.drop_last());
        let raw = raws.last();
        let t2 = track_spec(prev.0, raw);
        match normalize_spec(raw, t2.held()) {
            None => (t2, prev.1, prev.2),
            Some(e) => match e {
                InputEvent::MouseMotion { delta_x, delta_y } => match prev.2 {
                    Some(k) => (t2, prev.1.update(k, add_motion(prev.1[k], delta_x, delta_y)), prev.2),
                    None => (t2, prev.1.push(e), Some(prev.1.len() as int)),
                },
                _ => (t2, prev.1.push(e), prev.2),
            },
        }
    }
}

/// The commands that `es` resolve to in keymap `km`, in order; events that
/// are not bound are dropped.
pub open spec fn resolved_spec(km: Keymap, es: Seq<InputEvent>) -> Seq<Seq<char>>
    decreases es.len(),
{
    if es.len() == 0 {
        Seq::empty()
    } else {
        let prev = resolved_spec(km, es.drop_last());
        match lookup(km, pattern_spec(es.last()), modifiers_spec(es.last())) {
            Some(c) => prev.push(c),
            None => prev,
        }
    }
}

/// The deltas of a motion event lie within `bound` in magnitude.
pub open spec fn motion_within(e: InputEvent, bound: int) -> bool {
    match e {
        InputEvent::MouseMotion { delta_x, delta_y } => -bound <= delta_x <= bound && -bound <= delta_y <= bound,
        _ => false,
    }
}

/// Counts each raw event in the tracker and normalizes it, summing all
/// motion of the batch into one event.
pub fn normalize_batch(tracker: &mut ModifierKeys, raws: &Vec<RawEvent>) -> (r: Vec<InputEvent>)
    requires
        raws@.len() < u32::MAX,
    ensures
        *final(tracker) == batch_spec(*old(tracker), raws@).0,
        r@ == batch_spec(*old(tracker), raws@).1,
{
    let ghost t0 = *tracker;
    let mut out: Vec<InputEvent> = Vec::new();
    let mut motion_at: Option<usize> = None;
    let n = raws.len();
    let mut i: usize = 0;
    while i < n
        invariant
            n == raws@.len(),
            n < u32::MAX,
            0 <= i <= n,
            ({
                let b = batch_spec(t0, raws@.subrange(0, i as int));
                &&& *tracker == b.0
                &&& out@ == b.1
                &&& b.2 == (match motion_at { Some(k) => Some(k as int), None => None::<int> })
            }),
            motion_at matches Some(k) ==> k < out@.len() && motion_within(out@[k as int], i * 2147483648),
        decreases n - i,
    {
        let raw = raws[i];
        proof {
            assert(raws@.subrange(0, i + 1).drop_last() =~= raws@.subrange(0, i as int));
            assert(raws@.subrange(0, i + 1).last() == raw);
        }
        let e = normalize(tracker, raw);
        match e {
            None => {},
            Some(ev) => {
                match ev {
                    InputEvent::MouseMotion { delta_x, delta_y } => {
                        match motion_at {
                            Some(k) => {
                                if let InputEvent::MouseMotion { delta_x: ox, delta_y: oy } = out[k] {
                                    out.set(k, InputEvent::MouseMotion { delta_x: ox + delta_x, delta_y: oy + delta_y });
                                }
                            },
                            None => {
                                motion_at = Some(out.len());
                                out.push(ev);
                            },
                        }
                    },
                    _ => {
                        out.push(ev);
                    },
                }
            },
        }
        i = i + 1;
    }
    proof {
        assert(raws@.subrange(0, n as int) =~= raws@);
    }
    out
}

/// Resolves each event through `mode`, in order, keeping the commands found.
pub fn resolve_all(mode: &Mode, events: &Vec<InputEvent>) -> (r: Vec<String>)
    requires
        mode.wf(),
    ensures
        r@.map_values(|s: String| s@) == resolved_spec(mode@, events@),
{
    let mut out: Vec<String> = Vec::new();
    let n = events.len();
    let mut i: usize = 0;
    while i < n
        invariant
            n == events@.len(),
            0 <= i <= n,
            mode.wf(),
            out@.map_values(|s: String| s@) == resolved_spec(mode@, events@.subrange(0, i as int)),
        decreases n - i,
    {
        proof {
            assert(events@.subrange(0, i + 1).drop_last() =~= events@.subrange(0, i as int));
            assert(events@.subrange(0, i + 1).last() == events@[i as int]);
        }
        let ghost before = out@;
        match mode.resolve_event(&events[i]) {
            Some(c) => {
                out.push(c);
                proof {
                    assert(out@.map_values(|s: String| s@) =~= before.map_values(|s: String| s@).push(c@));
                }
            },
            None => {},
        }
        i = i + 1;
    }
    proof {
        assert(events@.subrange(0, n as int) =~= events@);
    }
    out
}

/// The dispatch core's state: the modifier tracker and the viewports.
pub struct Dispatcher {
    pub modifiers: ModifierKeys,
    pub viewports: Viewports,
}

impl Dispatcher {
    /// No modifier held, no viewport open.
    pub fn new() -> (r: Dispatcher)
        ensures
            r.modifiers == ModifierKeys::new_spec(),
            r.viewports.wf(),
            r.viewports.activities() == Seq::<Activity>::empty(),
    {
        Dispatcher { modifiers: ModifierKeys::new(), viewports: Viewports::new() }
    }

    /// Processes one tick's raw events, in the order received: every event
    /// updates the modifier tracker; the semantic events resolve through the
    /// mode of the Active viewport into the commands returned, in order. With
    /// no Active viewport nothing is returned.
    pub fn tick(&mut self, raws: &Vec<RawEvent>) -> (r: Vec<String>)
        requires
            old(self).viewports.wf(),
            raws@.len() < u32::MAX,
        ensures
            final(self).viewports == old(self).viewports,
            final(self).modifiers == batch_spec(old(self).modifiers, raws@).0,
            (forall|k: int| 0 <= k < old(self).viewports.activities().len()
                ==> #[trigger] old(self).viewports.activities()[k] != Activity::Active) ==> r@.len() == 0,
            forall|k: int| 0 <= k < old(self).viewports.activities().len()
                && #[trigger] old(self).viewports.activities()[k] == Activity::Active
                ==> r@.map_values(|s: String| s@) == resolved_spec(
                    old(self).viewports.keymaps()[k],
                    batch_spec(old(self).modifiers, raws@).1,
                ),
    {
        let events = normalize_batch(&mut self.modifiers, raws);
        match self.viewports.active() {
            None => Vec::new(),
            Some(i) => resolve_all(self.viewports.mode(i), &events),
        }
    }
}

/// The sum of the horizontal deltas of the motion events of `raws`.
pub open spec fn motion_sum_x(raws: Seq<RawEvent>) -> int
    decreases raws.len(),
{
    if raws.len() == 0 {
        0
    } else {
        motion_sum_x(raws.drop_last()) + match raws.last() {
            RawEvent::Motion { dx, .. } => dx as int,
            _ => 0,
        }
    }
}

/// The sum of the vertical deltas of the motion events of `raws`.
pub open spec fn motion_sum_y(raws: Seq<RawEvent>) -> int
    decreases raws.len(),
{
    if raws.len() == 0 {
        0
    } else {
        motion_sum_y(raws.drop_last()) + match raws.last() {
            RawEvent::Motion { dy, .. } => dy as int,
            _ => 0,
        }
    }
}

/// A batch of motion events alone, however many, gives exactly one motion
/// event, whose deltas are the sums of theirs; the tracker is untouched.
pub proof fn lemma_motion_coalesces(t: ModifierKeys, raws: Seq<RawEvent>)
    requires
        0 < raws.len() < u32::MAX,
        forall|i: int| 0 <= i < raws.len() ==> #[trigger] raws[i] is Motion,
    ensures
        batch_spec(t, raws).0 == t,
        batch_spec(t, raws).1 == seq![InputEvent::MouseMotion {
            delta_x: motion_sum_x(raws) as i64,
            delta_y: motion_sum_y(raws) as i64,
        }],
        batch_spec(t, raws).2 == Some(0int),
        -(raws.len() * 2147483648) <= motion_sum_x(raws) <= raws.len() * 2147483648,
        -(raws.len() * 2147483648) <= motion_sum_y(raws) <= raws.len() * 2147483648,
    decreases raws.len(),
{
    let p = raws.drop_last();
    assert(raws.last() is Motion);
    if raws.len() == 1 {
        assert(p.len() == 0);
        assert(motion_sum_x(p) == 0);
        assert(motion_sum_y(p) == 0);
        assert(batch_spec(t, p).1 =~= Seq::<InputEvent>::empty());
        let r = batch_spec(t, raws);
        assert(r.1 =~= seq![InputEvent::MouseMotion {
            delta_x: motion_sum_x(raws) as i64,
            delta_y: motion_sum_y(raws) as i64,
        }]);
    } else {
        assert forall|i: int| 0 <= i < p.len() implies #[trigger] p[i] is Motion by {
            assert(p[i] == raws[i]);
        }
        lemma_motion_coalesces(t, p);
        let r = batch_spec(t, raws);
        assert(r.1 =~= seq![InputEvent::MouseMotion {
            delta_x: motion_sum_x(raws) as i64,
            delta_y: motion_sum_y(raws) as i64,
        }]);
    }
}

} // verus!
