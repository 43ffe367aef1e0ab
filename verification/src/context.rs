//! Contexts wiring engine state through the component tree.
//!
//! A [`CesiumViewerContext`] is created by the viewer container and exposes
//! the active viewer handle and the current selection to every descendant
//! component; a [`CesiumEntityContext`] is created by each entity-declaring
//! component and exposes that component's entity handle to its own children.
//! Every slot in either context is guarded by the identity of the thread
//! that created the context, so a wrong-thread access reads as "absent" and
//! never touches a foreign handle.

use vstd::prelude::*;

use crate::handle::{JsHandle, ThreadToken};
use crate::selection::{selection_step, SelectionSlot, SelectionView};
use crate::slot::{slot_read, slot_step, GuardedSlot, SlotOp, SlotView};

verus! {

/// Mathematical content of a [`CesiumViewerContext`].
pub struct ViewerContextView {
    pub viewer: SlotView,
    pub selection: SelectionView,
}

/// Context exposing the active viewer to descendants.
pub struct CesiumViewerContext {
    viewer: GuardedSlot,
    selection: SelectionSlot,
}

impl View for CesiumViewerContext {
    type V = ViewerContextView;

    closed spec fn view(&self) -> ViewerContextView {
        ViewerContextView { viewer: self.viewer@, selection: self.selection@ }
    }
}

impl CesiumViewerContext {
    /// Both slots answer to the one thread that created the context.
    pub open spec fn wf(&self) -> bool {
        self@.viewer.owner == self@.selection.owner
    }

    /// The identity of the thread that created the context.
    pub open spec fn owner_spec(&self) -> ThreadToken {
        self@.viewer.owner
    }

    /// A fresh context owned by `owner`, with no viewer, no selection, and
    /// the selection version counter at zero.
    pub fn new(owner: ThreadToken) -> (r: Self)
        ensures
            r.wf(),
            r.owner_spec() == owner,
            r@.viewer.value == None::<JsHandle>,
            r@.selection.selected == None::<JsHandle>,
            r@.selection.version == 0,
    {
        CesiumViewerContext {
            viewer: GuardedSlot::new(owner),
            selection: SelectionSlot::new(owner),
        }
    }

    /// Records the viewer instance in the context; a wrong-thread call keeps
    /// the prior contents and reports `false` so the host shell can log the
    /// violation.
    pub fn set_viewer(&mut self, current: ThreadToken, viewer: JsHandle) -> (applied: bool)
        ensures
            final(self)@.viewer == slot_step(
                old(self)@.viewer,
                SlotOp::Store { current, handle: viewer },
            ),
            final(self)@.selection == old(self)@.selection,
            applied == (current == old(self).owner_spec()),
            old(self).wf() ==> final(self).wf(),
    {
        self.viewer.set(current, viewer)
    }

    /// The viewer handle, or "absent" when none is stored or the caller is
    /// on the wrong thread.
    pub fn viewer(&self, current: ThreadToken) -> (r: Option<JsHandle>)
        ensures
            r == slot_read(self@.viewer, current),
    {
        self.viewer.get(current)
    }

    /// The viewer handle without registering a reactive dependency in the
    /// host framework; the stored value and the guard are the same as for
    /// [`Self::viewer`].
    pub fn viewer_untracked(&self, current: ThreadToken) -> (r: Option<JsHandle>)
        ensures
            r == slot_read(self@.viewer, current),
    {
        self.viewer.get(current)
    }

    /// Clears the viewer from the context; a wrong-thread call is ignored.
    pub fn clear_viewer(&mut self, current: ThreadToken)
        ensures
            final(self)@.viewer == slot_step(old(self)@.viewer, SlotOp::Clear { current }),
            final(self)@.selection == old(self)@.selection,
            old(self).wf() ==> final(self).wf(),
    {
        self.viewer.clear(current)
    }

    /// Stores the selection the engine reports — possibly "no selection" —
    /// and advances the version counter; a wrong-thread call changes nothing
    /// and reports `false` so the host shell can log the violation.
    pub fn set_selected_entity(
        &mut self,
        current: ThreadToken,
        entity: Option<JsHandle>,
    ) -> (applied: bool)
        requires
            current == old(self)@.selection.owner ==> old(self)@.selection.version < usize::MAX,
        ensures
            final(self)@.selection == selection_step(old(self)@.selection, current, entity),
            final(self)@.viewer == old(self)@.viewer,
            applied == (current == old(self)@.selection.owner),
            old(self).wf() ==> final(self).wf(),
    {
        self.selection.notify(current, entity)
    }

    /// The selected entity, or "absent" when nothing is selected or the
    /// caller is on the wrong thread.
    pub fn selected_entity(&self, current: ThreadToken) -> (r: Option<JsHandle>)
        ensures
            r == (if current == self@.selection.owner {
                self@.selection.selected
            } else {
                None::<JsHandle>
            }),
    {
        self.selection.selected(current)
    }

    /// The selected entity without registering a reactive dependency; the
    /// stored value and the guard are the same as for
    /// [`Self::selected_entity`].
    pub fn selected_entity_untracked(&self, current: ThreadToken) -> (r: Option<JsHandle>)
        ensures
            r == (if current == self@.selection.owner {
                self@.selection.selected
            } else {
                None::<JsHandle>
            }),
    {
        self.selection.selected(current)
    }

    /// Clears the selection and advances the version counter, so dependent
    /// views re-render to an empty state; a wrong-thread call is ignored.
    pub fn clear_selected_entity(&mut self, current: ThreadToken)
        requires
            current == old(self)@.selection.owner ==> old(self)@.selection.version < usize::MAX,
        ensures
            final(self)@.selection == selection_step(
                old(self)@.selection,
                current,
                None::<JsHandle>,
            ),
            final(self)@.viewer == old(self)@.viewer,
            old(self).wf() ==> final(self).wf(),
    {
        let _ = self.selection.notify(current, None);
    }

    /// The current value of the selection version counter.
    pub fn selection_version(&self) -> (v: usize)
        ensures
            v == self@.selection.version,
    {
        self.selection.version()
    }

    /// Whether an access from `current` would be rejected by the guard.
    pub fn wrong_thread(&self, current: ThreadToken) -> (r: bool)
        ensures
            r == (current != self.owner_spec()),
    {
        self.viewer.wrong_thread(current)
    }

    /// Runs `f` on the viewer handle when one is observable on this thread;
    /// yields "absent" when the slot is empty or the thread is wrong.
    pub fn with_viewer<F, R>(&self, current: ThreadToken, f: F) -> (r: Option<R>) where
        F: FnOnce(JsHandle) -> R,

        requires
            forall|h: JsHandle|
                slot_read(self@.viewer, current) == Some(h) ==> f.requires((h,)),
        ensures
            match r {
                Some(res) => ({
                    &&& slot_read(self@.viewer, current) matches Some(h)
                    &&& f.ensures((slot_read(self@.viewer, current)->0,), res)
                }),
                None => slot_read(self@.viewer, current) is None,
            },
    {
        match self.viewer.get(current) {
            Some(h) => Some(f(h)),
            None => None,
        }
    }
}

/// Context exposing one declared entity's handle to its child graphics
/// components.
pub struct CesiumEntityContext {
    entity: GuardedSlot,
}

impl View for CesiumEntityContext {
    type V = SlotView;

    closed spec fn view(&self) -> SlotView {
        self.entity@
    }
}

impl CesiumEntityContext {
    /// A fresh, empty entity context owned by `owner`.
    pub fn new(owner: ThreadToken) -> (r: Self)
        ensures
            r@ == (SlotView { owner, value: None::<JsHandle> }),
    {
        CesiumEntityContext { entity: GuardedSlot::new(owner) }
    }

    /// Records the entity handle; a wrong-thread call keeps the prior
    /// contents and reports `false` so the host shell can log the violation.
    pub fn set_entity(&mut self, current: ThreadToken, entity: JsHandle) -> (applied: bool)
        ensures
            final(self)@ == slot_step(old(self)@, SlotOp::Store { current, handle: entity }),
            applied == (current == old(self)@.owner),
    {
        self.entity.set(current, entity)
    }

    /// The entity handle, or "absent" when none is stored or the caller is
    /// on the wrong thread.
    pub fn entity(&self, current: ThreadToken) -> (r: Option<JsHandle>)
        ensures
            r == slot_read(self@, current),
    {
        self.entity.get(current)
    }

    /// The entity handle without registering a reactive dependency; the
    /// stored value and the guard are the same as for [`Self::entity`].
    pub fn entity_untracked(&self, current: ThreadToken) -> (r: Option<JsHandle>)
        ensures
            r == slot_read(self@, current),
    {
        self.entity.get(current)
    }

    /// Clears the entity reference; a wrong-thread call is ignored.
    pub fn clear_entity(&mut self, current: ThreadToken)
        ensures
            final(self)@ == slot_step(old(self)@, SlotOp::Clear { current }),
    {
        self.entity.clear(current)
    }

    /// Whether an access from `current` would be rejected by the guard.
    pub fn wrong_thread(&self, current: ThreadToken) -> (r: bool)
        ensures
            r == (current != self@.owner),
    {
        self.entity.wrong_thread(current)
    }

    /// Runs `f` on the entity handle when one is observable on this thread;
    /// yields "absent" when the slot is empty or the thread is wrong.
    pub fn with_entity<F, R>(&self, current: ThreadToken, f: F) -> (r: Option<R>) where
        F: FnOnce(JsHandle) -> R,

        requires
            forall|h: JsHandle| slot_read(self@, current) == Some(h) ==> f.requires((h,)),
        ensures
            match r {
                Some(res) => ({
                    &&& slot_read(self@, current) matches Some(h)
                    &&& f.ensures((slot_read(self@, current)->0,), res)
                }),
                None => slot_read(self@, current) is None,
            },
    {
        match self.entity.get(current) {
            Some(h) => Some(f(h)),
            None => None,
        }
    }
}

} // verus!
