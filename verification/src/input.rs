use vstd::prelude::*;

use std::collections::HashMap;

use crate::gamepad::{GamepadInput, InputEvent, PressState};
use crate::layout::{find_control, first_with_id, ControlInfo};

verus! {

broadcast use vstd::std_specs::hash::group_hash_axioms;

/// Where a touch on a thumbstick began.
///
/// The coordinates are kept as the bit patterns of the `f32` layout
/// coordinates of the touch (`f32::to_bits`); the library only stores them.
#[derive(Debug, Clone, Copy, PartialEq, Eq, Structural)]
pub struct StickState {
    pub control_id: u32,
    pub origin_x: u32,
    pub origin_y: u32,
}

/// Whether `i` is the index of the topmost control that was hit: `hits` is
/// true at `i` and at no later index. Controls later in the list are drawn
/// on top of earlier ones.
pub open spec fn is_topmost_hit(hits: Seq<bool>, i: int) -> bool {
    &&& 0 <= i < hits.len()
    &&& hits[i]
    &&& forall|j: int| i < j < hits.len() ==> !#[trigger] hits[j]
}

/// The index of the topmost control that was hit, if any was.
pub open spec fn topmost_hit(hits: Seq<bool>) -> Option<int> {
    if exists|i: int| is_topmost_hit(hits, i) {
        Some(choose|i: int| is_topmost_hit(hits, i))
    } else {
        None
    }
}

/// Finds the topmost control that was hit: the last index at which `hits` is true.
pub fn topmost_hit_index(hits: &[bool]) -> (r: Option<usize>)
    ensures
        match r {
            Some(i) => topmost_hit(hits@) == Some(i as int),
            None => topmost_hit(hits@) is None,
        },
{
    let mut i: usize = hits.len();
    while i > 0
        invariant
            i <= hits@.len(),
            forall|j: int| i <= j < hits@.len() ==> !#[trigger] hits@[j],
        decreases i,
    {
        i = i - 1;
        if hits[i] {
            proof {
                assert(is_topmost_hit(hits@, i as int));
                let k = choose|k: int| is_topmost_hit(hits@, k);
                assert(k == i as int) by {
                    if k < i {
                        assert(!hits@[i as int]);
                    } else if k > i {
                        assert(!hits@[k]);
                    }
                }
            }
            return Some(i);
        }
    }
    None
}

/// One operation on a tracker, as far as its state is concerned: a press,
/// with the id and input of the control it hit (if it hit one), or a release.
pub enum TouchOp {
    Press { touch_id: u64, origin_x: u32, origin_y: u32, hit: Option<(u32, GamepadInput)> },
    Release { touch_id: u64 },
}

/// The operation that `press` performs with these arguments.
pub open spec fn press_op(
    touch_id: u64,
    origin_x: u32,
    origin_y: u32,
    controls: Seq<ControlInfo>,
    hits: Seq<bool>,
) -> TouchOp {
    TouchOp::Press {
        touch_id,
        origin_x,
        origin_y,
        hit: match topmost_hit(hits) {
            Some(i) => Some((controls[i].id, controls[i].input)),
            None => None,
        },
    }
}

/// Which touch holds which control after `op`, given `m` before it: a press
/// that hit a control makes the touch hold it, a release frees the touch.
pub open spec fn touches_step(m: Map<u64, u32>, op: TouchOp) -> Map<u64, u32> {
    match op {
        TouchOp::Press { touch_id, hit: Some((id, _)), .. } => m.insert(touch_id, id),
        TouchOp::Press { .. } => m,
        TouchOp::Release { touch_id } => m.remove(touch_id),
    }
}

/// The thumbstick records after `op`, given `m` before it: a press that hit
/// a thumbstick control records where it began, a release drops the record,
/// anything else keeps it.
pub open spec fn sticks_step(m: Map<u64, StickState>, op: TouchOp) -> Map<u64, StickState> {
    match op {
        TouchOp::Press { touch_id, origin_x, origin_y, hit: Some((id, input)) } => {
            if input.spec_is_stick() {
                m.insert(touch_id, StickState { control_id: id, origin_x, origin_y })
            } else {
                m
            }
        },
        TouchOp::Press { .. } => m,
        TouchOp::Release { touch_id } => m.remove(touch_id),
    }
}

/// Which touch holds which control after the operations `ops`, starting
/// from a new tracker.
pub open spec fn touches_after(ops: Seq<TouchOp>) -> Map<u64, u32>
    decreases ops.len(),
{
    if ops.len() == 0 {
        Map::empty()
    } else {
        touches_step(touches_after(ops.drop_last()), ops.last())
    }
}

/// The thumbstick records after the operations `ops`, starting from a new tracker.
pub open spec fn sticks_after(ops: Seq<TouchOp>) -> Map<u64, StickState>
    decreases ops.len(),
{
    if ops.len() == 0 {
        Map::empty()
    } else {
        sticks_step(sticks_after(ops.drop_last()), ops.last())
    }
}

/// Whether `ids` lists, once per touch of `m`, the id of the control it
/// holds, in some order of the touches.
pub open spec fn lists_held_ids(m: Map<u64, u32>, ids: Seq<u32>) -> bool {
    exists|order: Seq<u64>|
        {
            &&& order.no_duplicates()
            &&& order.to_set() == m.dom()
            &&& ids == order.map_values(|t: u64| m[t])
        }
}

/// The event that reports `control` going into `state`.
pub open spec fn event_for(control: ControlInfo, state: PressState) -> InputEvent {
    InputEvent { control_id: control.id, input: control.input, state }
}

/// Keeps track of which touch holds which control.
pub struct InputTracker {
    /// touch id -> id of the control that the touch holds
    active: HashMap<u64, u32>,
    /// touch id -> where the touch began, for touches that hold a thumbstick
    stick_touches: HashMap<u64, StickState>,
}

impl InputTracker {
    /// Every touch that holds a thumbstick is also an active touch.
    #[verifier::type_invariant]
    closed spec fn well_formed(self) -> bool {
        self.stick_touches@.dom().subset_of(self.active@.dom())
    }

    /// The touches that currently hold a control, each with the id of that control.
    pub closed spec fn touches(&self) -> Map<u64, u32> {
        self.active@
    }

    /// The touches that hold a thumbstick, each with where it began.
    pub closed spec fn sticks(&self) -> Map<u64, StickState> {
        self.stick_touches@
    }

    /// A tracker with no touches.
    pub fn new() -> (t: Self)
        ensures
            t.touches() == Map::<u64, u32>::empty(),
            t.sticks() == Map::<u64, StickState>::empty(),
            t.touches() == touches_after(Seq::empty()),
            t.sticks() == sticks_after(Seq::empty()),
            t.sticks().dom().subset_of(t.touches().dom()),
    {
        InputTracker { active: HashMap::new(), stick_touches: HashMap::new() }
    }

    /// A touch goes down. `controls` lists the controls in drawing order and
    /// `hits[i]` tells whether the touch point lies inside `controls[i]`.
    /// The topmost control that was hit becomes held by the touch; when it
    /// belongs to a thumbstick the touch's origin (`origin_x`, `origin_y`,
    /// bit patterns of the layout coordinates) is recorded too.
    /// Returns the press event, or `None` when no control was hit.
    pub fn press(
        &mut self,
        touch_id: u64,
        origin_x: u32,
        origin_y: u32,
        controls: &[ControlInfo],
        hits: &[bool],
    ) -> (ev: Option<InputEvent>)
        requires
            hits@.len() == controls@.len(),
        ensures
            match topmost_hit(hits@) {
                None => {
                    &&& ev is None
                    &&& final(self).touches() == old(self).touches()
                    &&& final(self).sticks() == old(self).sticks()
                },
                Some(i) => {
                    let c = controls@[i];
                    &&& ev == Some(event_for(c, PressState::Pressed))
                    &&& final(self).touches() == old(self).touches().insert(touch_id, c.id)
                    &&& final(self).sticks() == if c.input.spec_is_stick() {
                        old(self).sticks().insert(
                            touch_id,
                            StickState { control_id: c.id, origin_x, origin_y },
                        )
                    } else {
                        old(self).sticks()
                    }
                },
            },
            final(self).touches() == touches_step(
                old(self).touches(),
                press_op(touch_id, origin_x, origin_y, controls@, hits@),
            ),
            final(self).sticks() == sticks_step(
                old(self).sticks(),
                press_op(touch_id, origin_x, origin_y, controls@, hits@),
            ),
            final(self).sticks().dom().subset_of(final(self).touches().dom()),
    {
        proof {
            use_type_invariant(&*self);
        }
        match topmost_hit_index(hits) {
            None => None,
            Some(i) => {
                let control = &controls[i];
                let mut parts = InputTracker::new();
                std::mem::swap(self, &mut parts);
                let InputTracker { mut active, mut stick_touches } = parts;
                active.insert(touch_id, control.id);
                if control.input.is_stick() {
                    stick_touches.insert(
                        touch_id,
                        StickState { control_id: control.id, origin_x, origin_y },
                    );
                }
                *self = InputTracker { active, stick_touches };
                Some(
                    InputEvent {
                        control_id: control.id,
                        input: control.input,
                        state: PressState::Pressed,
                    },
                )
            },
        }
    }

    /// A touch comes up. The touch no longer holds anything. When it held a
    /// control that `controls` still lists, the release event of that
    /// control is returned.
    pub fn release(&mut self, touch_id: u64, controls: &[ControlInfo]) -> (ev: Option<InputEvent>)
        ensures
            final(self).touches() == old(self).touches().remove(touch_id),
            final(self).sticks() == old(self).sticks().remove(touch_id),
            final(self).touches() == touches_step(old(self).touches(), TouchOp::Release { touch_id }),
            final(self).sticks() == sticks_step(old(self).sticks(), TouchOp::Release { touch_id }),
            ev == if old(self).touches().contains_key(touch_id) {
                match first_with_id(controls@, old(self).touches()[touch_id]) {
                    Some(i) => Some(event_for(controls@[i], PressState::Released)),
                    None => None,
                }
            } else {
                None
            },
            final(self).sticks().dom().subset_of(final(self).touches().dom()),
    {
        proof {
            use_type_invariant(&*self);
        }
        let mut parts = InputTracker::new();
        std::mem::swap(self, &mut parts);
        let InputTracker { mut active, mut stick_touches } = parts;
        stick_touches.remove(&touch_id);
        let held = active.remove(&touch_id);
        *self = InputTracker { active, stick_touches };
        if let Some(control_id) = held {
            if let Some(i) = find_control(controls, control_id) {
                let control = &controls[i];
                return Some(
                    InputEvent {
                        control_id: control.id,
                        input: control.input,
                        state: PressState::Released,
                    },
                );
            }
        }
        None
    }

    /// Where the touch `touch_id` began, when it holds a thumbstick.
    pub fn get_touch_state(&self, touch_id: u64) -> (s: Option<&StickState>)
        ensures
            match s {
                Some(st) => self.sticks().contains_key(touch_id) && *st == self.sticks()[touch_id],
                None => !self.sticks().contains_key(touch_id),
            },
    {
        self.stick_touches.get(&touch_id)
    }

    /// The ids of the controls that are held, one entry per touch (a control
    /// held by two touches appears twice). The order is that in which the
    /// underlying hash map walks its touches.
    pub fn pressed_ids(&self) -> (ids: Vec<u32>)
        ensures
            lists_held_ids(self.touches(), ids@),
            ids@.len() == self.touches().dom().len(),
    {
        let mut ids: Vec<u32> = Vec::new();
        let ghost m = self.active@;
        for t in it: self.active.keys()
            invariant
                m == self.active@,
                it.seq().unref().to_set() == m.dom(),
                it.seq().unref().no_duplicates(),
                it.seq().len() == m.dom().len(),
                ids@ == it.seq().unref().take(it.index()).map_values(|k: u64| m[k]),
            ensures
                exists|order: Seq<u64>|
                    {
                        &&& order.no_duplicates()
                        &&& order.to_set() == m.dom()
                        &&& ids@ == order.map_values(|t: u64| m[t])
                    },
                ids@.len() == m.dom().len(),
        {
            let ghost done = it.seq().unref().take(it.index());
            assert(m.contains_key(*t)) by {
                assert(it.seq().unref()[it.index()] == *t);
                assert(it.seq().unref().to_set().contains(*t));
            }
            if let Some(id) = self.active.get(t) {
                ids.push(*id);
            }
            assert(it.seq().unref().take(it.index() + 1) =~= done.push(*t));
            assert(ids@ =~= it.seq().unref().take(it.index() + 1).map_values(|k: u64| m[k]));
        }
        ids
    }

    /// Whether any touch holds a control.
    pub fn has_active(&self) -> (r: bool)
        ensures
            r == (self.touches().dom().len() > 0),
    {
        let empty = self.active.is_empty();
        proof {
            assert(self.active@.dom().finite());
            if self.active@.dom().len() == 0 {
                assert(self.active@.dom() =~= Set::empty());
                assert(self.active@ =~= Map::empty());
            } else {
                assert(self.active@.dom() != Set::<u64>::empty());
            }
        }
        !empty
    }
}

impl Default for InputTracker {
    /// A tracker with no touches.
    fn default() -> (t: Self)
        ensures
            t.touches() == Map::<u64, u32>::empty(),
            t.sticks() == Map::<u64, StickState>::empty(),
    {
        InputTracker::new()
    }
}

} // verus!
