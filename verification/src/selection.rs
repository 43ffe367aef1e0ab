//! The selection slot: a thread-affinity guarded handle to whichever entity
//! the engine currently reports as user-selected, paired with a version
//! counter.
//!
//! Foreign handles are not equality-comparable in general, so dependent
//! views cannot watch the handle itself for changes. Instead every accepted
//! selection notification — including one that reports "no selection" —
//! increments the version counter, and views watch the counter.

use vstd::prelude::*;

use crate::handle::{JsHandle, ThreadToken};

verus! {

/// Mathematical content of a [`SelectionSlot`].
pub struct SelectionView {
    pub owner: ThreadToken,
    pub selected: Option<JsHandle>,
    pub version: usize,
}

/// Effect of one selection notification: on the owning thread the reported
/// selection (possibly "no selection") replaces the stored one and the
/// version counter advances; on any other thread nothing changes.
pub open spec fn selection_step(
    s: SelectionView,
    current: ThreadToken,
    selection: Option<JsHandle>,
) -> SelectionView {
    if current == s.owner {
        SelectionView { owner: s.owner, selected: selection, version: (s.version + 1) as usize }
    } else {
        s
    }
}

/// Effect of a sequence of notifications, first to last; each event pairs
/// the notifying thread with the selection it reports.
pub open spec fn selection_run(
    s: SelectionView,
    events: Seq<(ThreadToken, Option<JsHandle>)>,
) -> SelectionView
    decreases events.len(),
{
    if events.len() == 0 {
        s
    } else {
        selection_run(selection_step(s, events[0].0, events[0].1), events.drop_first())
    }
}

/// How many events of `events` run on the owning thread `owner` — the
/// notifications that are accepted rather than dropped.
pub open spec fn accepted_count(
    events: Seq<(ThreadToken, Option<JsHandle>)>,
    owner: ThreadToken,
) -> int
    decreases events.len(),
{
    if events.len() == 0 {
        0
    } else {
        (if events[0].0 == owner {
            1int
        } else {
            0int
        }) + accepted_count(events.drop_first(), owner)
    }
}

/// Law: every accepted notification — including a transition into or out of
/// "no selection" — raises the version counter by exactly one, so within a
/// session whose notification count stays below the counter's range the
/// counter strictly increases and never wraps: after a run it stands exactly
/// `accepted_count` above where it started.
pub proof fn lemma_version_counts_notifications(
    s: SelectionView,
    events: Seq<(ThreadToken, Option<JsHandle>)>,
)
    requires
        s.version + accepted_count(events, s.owner) <= usize::MAX,
        accepted_count(events, s.owner) >= 0,
    ensures
        selection_run(s, events).version == s.version + accepted_count(events, s.owner),
        selection_run(s, events).owner == s.owner,
    decreases events.len(),
{
    if events.len() > 0 {
        let s1 = selection_step(s, events[0].0, events[0].1);
        lemma_accepted_count_nonneg(events.drop_first(), s.owner);
        lemma_version_counts_notifications(s1, events.drop_first());
    }
}

/// The accepted count is never negative.
pub proof fn lemma_accepted_count_nonneg(
    events: Seq<(ThreadToken, Option<JsHandle>)>,
    owner: ThreadToken,
)
    ensures
        accepted_count(events, owner) >= 0,
    decreases events.len(),
{
    if events.len() > 0 {
        lemma_accepted_count_nonneg(events.drop_first(), owner);
    }
}

/// The guarded selection handle and its version counter.
pub struct SelectionSlot {
    owner: ThreadToken,
    selected: Option<JsHandle>,
    version: usize,
}

impl View for SelectionSlot {
    type V = SelectionView;

    closed spec fn view(&self) -> SelectionView {
        SelectionView { owner: self.owner, selected: self.selected, version: self.version }
    }
}

impl SelectionSlot {
    /// An empty selection owned by `owner`, with the version counter at zero.
    pub fn new(owner: ThreadToken) -> (r: Self)
        ensures
            r@ == (SelectionView { owner, selected: None::<JsHandle>, version: 0 }),
    {
        SelectionSlot { owner, selected: None, version: 0 }
    }

    /// Applies one selection notification and reports whether it was
    /// accepted; a wrong-thread notification changes nothing and should be
    /// logged by the host shell.
    pub fn notify(&mut self, current: ThreadToken, selection: Option<JsHandle>) -> (applied: bool)
        requires
            current == old(self)@.owner ==> old(self)@.version < usize::MAX,
        ensures
            final(self)@ == selection_step(old(self)@, current, selection),
            applied == (current == old(self)@.owner),
    {
        if current == self.owner {
            self.selected = selection;
            self.version = self.version + 1;
            true
        } else {
            false
        }
    }

    /// A copy of the selected handle, or "absent" when nothing is selected
    /// or the caller is on the wrong thread.
    pub fn selected(&self, current: ThreadToken) -> (r: Option<JsHandle>)
        ensures
            r == (if current == self@.owner {
                self@.selected
            } else {
                None::<JsHandle>
            }),
    {
        if current == self.owner {
            self.selected
        } else {
            None
        }
    }

    /// The current value of the version counter.
    pub fn version(&self) -> (v: usize)
        ensures
            v == self@.version,
    {
        self.version
    }

    /// The identity of the owning thread.
    pub fn owner(&self) -> (t: ThreadToken)
        ensures
            t == self@.owner,
    {
        self.owner
    }
}

} // verus!
