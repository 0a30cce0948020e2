//! Local-variable storage: a stack of fixed-size slot frames, one pushed
//! per active function call. Slot ids are dense indices computed at
//! program-preparation time and are only ever resolved against the
//! top-of-stack frame — there is no dynamic scoping across frames.

use vstd::prelude::*;
use crate::values::Value;

verus! {

/// The slot frame of one active call.
#[derive(Debug)]
pub struct LocalFrame {
    pub slots: Vec<Option<Value>>,
}

/// The stack of local-variable frames.
#[derive(Debug)]
pub struct LocalSlots {
    pub frames: Vec<LocalFrame>,
}

/// What reading slot `slot` of the top frame yields: `None` when no frame
/// is active, the id is out of range, or the slot was never assigned.
pub open spec fn local_slot_value(s: LocalSlots, slot: int) -> Option<Value> {
    if s.frames@.len() > 0 && 0 <= slot < s.frames@.last().slots@.len() {
        s.frames@.last().slots@[slot]
    } else {
        Option::None
    }
}

impl LocalSlots {
    pub fn new() -> (s: LocalSlots)
        ensures
            s.frames@ =~= Seq::<LocalFrame>::empty(),
    {
        LocalSlots { frames: Vec::new() }
    }

    /// Push a fresh frame of `size` unassigned slots.
    pub fn push_frame(&mut self, size: usize)
        ensures
            final(self).frames@.len() == old(self).frames@.len() + 1,
            final(self).frames@.drop_last() =~= old(self).frames@,
            final(self).frames@.last().slots@ =~= Seq::new(
                size as nat,
                |i: int| Option::<Value>::None,
            ),
    {
        let slots: Vec<Option<Value>> = vec![Option::None; size];
        proof {
            assert(slots@ =~= Seq::new(size as nat, |i: int| Option::<Value>::None));
        }
        self.frames.push(LocalFrame { slots });
        proof {
            assert(self.frames@.drop_last() =~= old(self).frames@);
        }
    }

    /// Pop the top frame; on an empty stack this is a no-op.
    pub fn pop_frame(&mut self)
        ensures
            old(self).frames@.len() > 0 ==> final(self).frames@ =~= old(self).frames@.drop_last(),
            old(self).frames@.len() == 0 ==> final(self).frames@ =~= old(self).frames@,
    {
        let _ = self.frames.pop();
    }

    /// Read slot `slot` of the top frame.
    pub fn get_slot(&self, slot: usize) -> (r: Option<Value>)
        ensures
            r == local_slot_value(*self, slot as int),
    {
        if self.frames.len() == 0 {
            return Option::None;
        }
        let top = &self.frames[self.frames.len() - 1];
        if slot < top.slots.len() {
            top.slots[slot]
        } else {
            Option::None
        }
    }

    /// Assign slot `slot` of the top frame. Slot ids are in range by
    /// construction upstream, so this has no failure case.
    pub fn set_slot(&mut self, slot: usize, value: Value)
        requires
            old(self).frames@.len() > 0,
            slot < old(self).frames@.last().slots@.len(),
        ensures
            final(self).frames@.len() == old(self).frames@.len(),
            final(self).frames@.drop_last() =~= old(self).frames@.drop_last(),
            final(self).frames@.last().slots@ =~= old(self).frames@.last().slots@.update(
                slot as int,
                Option::Some(value),
            ),
    {
        let last = self.frames.len() - 1;
        let frame = &mut self.frames[last];
        frame.slots[slot] = Option::Some(value);
        proof {
            assert(self.frames@.drop_last() =~= old(self).frames@.drop_last());
        }
    }
}

} // verus!
