//! Thread-affinity guarded slot: an optional foreign handle that may only be
//! read or replaced on the executor thread that created the owning context.
//!
//! Handles of the foreign engine are only valid on the thread that created
//! them (under server rendering that thread never exists at all), yet the
//! host framework treats state containers as freely movable. The guard makes
//! a wrong-thread access a safe no-op: reads yield "absent", writes keep the
//! prior value. Callers learn from the returned flag whether an access was
//! rejected, so the host shell can log the contract violation.

use vstd::prelude::*;

use crate::handle::{JsHandle, ThreadToken};

verus! {

/// Mathematical content of a [`GuardedSlot`]: who owns it and what it holds.
pub struct SlotView {
    pub owner: ThreadToken,
    pub value: Option<JsHandle>,
}

/// One mutating operation on a guarded slot, tagged with the thread that
/// attempts it.
pub enum SlotOp {
    Store { current: ThreadToken, handle: JsHandle },
    Clear { current: ThreadToken },
}

/// The thread attempting an operation.
pub open spec fn slot_op_thread(op: SlotOp) -> ThreadToken {
    match op {
        SlotOp::Store { current, .. } => current,
        SlotOp::Clear { current } => current,
    }
}

/// What a read observes: the stored value on the owning thread, absent on
/// every other thread.
pub open spec fn slot_read(s: SlotView, current: ThreadToken) -> Option<JsHandle> {
    if current == s.owner {
        s.value
    } else {
        None
    }
}

/// Effect of one operation: applied on the owning thread, ignored elsewhere.
pub open spec fn slot_step(s: SlotView, op: SlotOp) -> SlotView {
    if slot_op_thread(op) == s.owner {
        match op {
            SlotOp::Store { handle, .. } => SlotView { owner: s.owner, value: Some(handle) },
            SlotOp::Clear { .. } => SlotView { owner: s.owner, value: None },
        }
    } else {
        s
    }
}

/// Effect of a whole sequence of operations, first to last.
pub open spec fn slot_run(s: SlotView, ops: Seq<SlotOp>) -> SlotView
    decreases ops.len(),
{
    if ops.len() == 0 {
        s
    } else {
        slot_run(slot_step(s, ops[0]), ops.drop_first())
    }
}

/// No operation ever changes who owns a slot.
pub proof fn lemma_run_preserves_owner(s: SlotView, ops: Seq<SlotOp>)
    ensures
        slot_run(s, ops).owner == s.owner,
    decreases ops.len(),
{
    if ops.len() > 0 {
        lemma_run_preserves_owner(slot_step(s, ops[0]), ops.drop_first());
    }
}

/// Law: operations attempted from a thread other than the owner never change
/// the slot; the prior value, including "absent", is preserved.
pub proof fn lemma_foreign_thread_ops_preserve(s: SlotView, ops: Seq<SlotOp>)
    requires
        forall|i: int| 0 <= i < ops.len() ==> slot_op_thread(#[trigger] ops[i]) != s.owner,
    ensures
        slot_run(s, ops) == s,
    decreases ops.len(),
{
    if ops.len() > 0 {
        assert(slot_step(s, ops[0]) == s);
        lemma_foreign_thread_ops_preserve(s, ops.drop_first());
    }
}

/// Law: a read from a thread other than the owner yields "absent", whatever
/// operations — from any threads — were performed before it.
pub proof fn lemma_cross_thread_read_absent(s: SlotView, ops: Seq<SlotOp>, current: ThreadToken)
    requires
        current != s.owner,
    ensures
        slot_read(slot_run(s, ops), current) == None::<JsHandle>,
{
    lemma_run_preserves_owner(s, ops);
}

/// An optional foreign handle guarded by the identity of the thread that
/// created it.
pub struct GuardedSlot {
    owner: ThreadToken,
    value: Option<JsHandle>,
}

impl View for GuardedSlot {
    type V = SlotView;

    closed spec fn view(&self) -> SlotView {
        SlotView { owner: self.owner, value: self.value }
    }
}

impl GuardedSlot {
    /// An empty slot owned by the thread identified by `owner`.
    pub fn new(owner: ThreadToken) -> (r: Self)
        ensures
            r@ == (SlotView { owner, value: None::<JsHandle> }),
    {
        GuardedSlot { owner, value: None }
    }

    /// Stores `handle` when called on the owning thread and reports whether
    /// the write was applied; on any other thread the slot keeps its prior
    /// value and the caller is told to log the violation.
    pub fn set(&mut self, current: ThreadToken, handle: JsHandle) -> (applied: bool)
        ensures
            final(self)@ == slot_step(old(self)@, SlotOp::Store { current, handle }),
            applied == (current == old(self)@.owner),
    {
        if current == self.owner {
            self.value = Some(handle);
            true
        } else {
            false
        }
    }

    /// Resets the slot to "absent" on the owning thread; a wrong-thread call
    /// is silently ignored.
    pub fn clear(&mut self, current: ThreadToken)
        ensures
            final(self)@ == slot_step(old(self)@, SlotOp::Clear { current }),
    {
        if current == self.owner {
            self.value = None;
        }
    }

    /// A copy of the stored handle, or "absent" when the slot is empty or the
    /// caller is on the wrong thread.
    pub fn get(&self, current: ThreadToken) -> (r: Option<JsHandle>)
        ensures
            r == slot_read(self@, current),
    {
        if current == self.owner {
            self.value
        } else {
            None
        }
    }

    /// Whether a read on `current` would be rejected; the host shell logs the
    /// violation on the paths that report it.
    pub fn wrong_thread(&self, current: ThreadToken) -> (r: bool)
        ensures
            r == (current != self@.owner),
    {
        current != self.owner
    }

    /// The identity of the owning thread.
    pub fn owner(&self) -> (t: ThreadToken)
        ensures
            t == self@.owner,
    {
        self.owner
    }
}

} // verus!
