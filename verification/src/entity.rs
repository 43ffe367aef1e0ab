//! The entity-declaring component: declares one entity in the engine's
//! entity collection for as long as the component is mounted.
//!
//! On each creation-effect tick the component decides whether to add its
//! entity: only when the viewer is available, its own slot is still empty,
//! no add is already in flight, the component is still mounted, and the
//! tick runs on the owning thread. The host shell performs the add and
//! hands the entity handle back. Unmount surrenders the matching
//! viewer/entity pair for removal and clears the slot.

use vstd::prelude::*;

use crate::bag::{bag_opt_bool, bag_opt_raw, bag_opt_text, opt_text_view, PropertyBag, PropVal};
use crate::context::{CesiumEntityContext, CesiumViewerContext};
use crate::handle::{JsHandle, ThreadToken};
use crate::slot::{slot_read, slot_step, SlotOp, SlotView};

verus! {

/// The inputs of one entity-declaring component.
#[derive(Clone, PartialEq, Eq, Debug)]
pub struct EntityProps {
    pub name: Option<String>,
    pub position: Option<JsHandle>,
    pub description: Option<String>,
    pub show: Option<bool>,
}

/// The option object handed to the foreign entity-add call: name, position,
/// description and visibility, each present exactly when the corresponding
/// input is given, in the order the component assigns them.
pub open spec fn entity_options_model(p: EntityProps) -> Seq<(Seq<char>, PropVal)> {
    bag_opt_text("name"@, opt_text_view(p.name))
        + bag_opt_raw("position"@, p.position)
        + bag_opt_text("description"@, opt_text_view(p.description))
        + bag_opt_bool("show"@, p.show)
}

/// Builds the entity option object from the component inputs.
pub fn entity_options(p: &EntityProps) -> (r: PropertyBag)
    ensures
        r@ == entity_options_model(*p),
{
    let mut bag = PropertyBag::new();
    if let Some(n) = &p.name {
        bag.push_text("name", n.clone());
    }
    if let Some(pos) = &p.position {
        bag.push_raw("position", *pos);
    }
    if let Some(d) = &p.description {
        bag.push_text("description", d.clone());
    }
    if let Some(s) = &p.show {
        bag.push_bool("show", *s);
    }
    bag
}

/// What the host shell must do after a creation-effect tick that decided to
/// add the entity: call the entity-add method of the given viewer with the
/// given option object.
#[derive(Clone, PartialEq, Eq, Debug)]
pub struct AddEntity {
    pub viewer: JsHandle,
    pub options: PropertyBag,
}

/// The lifecycle-relevant state of one entity component: its flags together
/// with its own entity slot.
pub struct EntityLifecycle {
    pub adding: bool,
    pub unmounted: bool,
    pub entity: SlotView,
}

/// One lifecycle event of an entity component; effect ticks and unmounts
/// carry the viewer handle the component observes at that moment.
pub enum EntityEvent {
    EffectTick { current: ThreadToken, viewer: Option<JsHandle> },
    EntityAdded { current: ThreadToken, entity: JsHandle },
    Unmount { current: ThreadToken, viewer: Option<JsHandle> },
}

/// Whether a creation-effect tick in state `s` adds the entity.
pub open spec fn adds_entity(s: EntityLifecycle, current: ThreadToken, viewer: Option<JsHandle>) -> bool {
    &&& !s.unmounted
    &&& !s.adding
    &&& current == s.entity.owner
    &&& s.entity.value is None
    &&& viewer is Some
}

/// Effect of one creation-effect tick.
pub open spec fn entity_effect_step(
    s: EntityLifecycle,
    current: ThreadToken,
    viewer: Option<JsHandle>,
) -> EntityLifecycle {
    if adds_entity(s, current, viewer) {
        EntityLifecycle { adding: true, ..s }
    } else {
        s
    }
}

/// Effect of the host shell handing the added entity's handle back:
/// accepted only while an add is in flight and on the owning thread.
pub open spec fn entity_added_step(
    s: EntityLifecycle,
    current: ThreadToken,
    entity: JsHandle,
) -> EntityLifecycle {
    if s.adding && current == s.entity.owner {
        EntityLifecycle {
            adding: false,
            unmounted: s.unmounted,
            entity: slot_step(s.entity, SlotOp::Store { current, handle: entity }),
        }
    } else {
        s
    }
}

/// Effect of unmounting: the entity slot is cleared on the owning thread.
pub open spec fn entity_unmount_step(s: EntityLifecycle, current: ThreadToken) -> EntityLifecycle {
    EntityLifecycle {
        adding: false,
        unmounted: true,
        entity: slot_step(s.entity, SlotOp::Clear { current }),
    }
}

/// The viewer/entity pair an unmount surrenders for removal: present
/// exactly when both the entity and the viewer are observable on the
/// unmounting thread.
pub open spec fn unmount_removes(
    s: EntityLifecycle,
    current: ThreadToken,
    viewer: Option<JsHandle>,
) -> Option<(JsHandle, JsHandle)> {
    match (viewer, slot_read(s.entity, current)) {
        (Some(v), Some(e)) => Some((v, e)),
        _ => None,
    }
}

/// Outcome of running a sequence of entity lifecycle events: the final
/// state, how many foreign add and remove calls were commanded, and whether
/// an entity handle was ever stored.
pub struct EntityRun {
    pub state: EntityLifecycle,
    pub adds: int,
    pub removes: int,
    pub stored: bool,
}

/// Effect of one entity lifecycle event on a running tally.
pub open spec fn entity_run_step(r: EntityRun, e: EntityEvent) -> EntityRun {
    match e {
        EntityEvent::EffectTick { current, viewer } => EntityRun {
            state: entity_effect_step(r.state, current, viewer),
            adds: r.adds + if adds_entity(r.state, current, viewer) {
                1int
            } else {
                0int
            },
            ..r
        },
        EntityEvent::EntityAdded { current, entity } => EntityRun {
            state: entity_added_step(r.state, current, entity),
            stored: r.stored || (r.state.adding && current == r.state.entity.owner),
            ..r
        },
        EntityEvent::Unmount { current, viewer } => EntityRun {
            state: entity_unmount_step(r.state, current),
            removes: r.removes + if unmount_removes(r.state, current, viewer) is Some {
                1int
            } else {
                0int
            },
            ..r
        },
    }
}

/// Effect of a whole sequence of entity lifecycle events, first to last.
pub open spec fn entity_run(r: EntityRun, events: Seq<EntityEvent>) -> EntityRun
    decreases events.len(),
{
    if events.len() == 0 {
        r
    } else {
        entity_run(entity_run_step(r, events[0]), events.drop_first())
    }
}

/// The tally at the start of an entity component's life.
pub open spec fn entity_fresh_run(owner: ThreadToken) -> EntityRun {
    EntityRun {
        state: EntityLifecycle {
            adding: false,
            unmounted: false,
            entity: SlotView { owner, value: None },
        },
        adds: 0,
        removes: 0,
        stored: false,
    }
}

/// The inductive facts that tie an entity component's tally to its state.
pub open spec fn entity_run_invariant(r: EntityRun, owner: ThreadToken) -> bool {
    &&& r.state.entity.owner == owner
    &&& 0 <= r.adds <= 1
    &&& 0 <= r.removes <= 1
    &&& r.adds == 0 ==> !r.state.adding && r.state.entity.value is None && !r.stored
    &&& r.adds == 1 ==> r.state.adding || r.state.entity.value is Some || r.state.unmounted
    &&& r.state.entity.value is Some ==> r.stored
    &&& r.stored ==> r.adds == 1
    &&& r.removes == 1 ==> r.state.unmounted && r.state.entity.value is None
    &&& r.state.unmounted ==> !r.state.adding
}

/// One event preserves the inductive facts.
pub proof fn lemma_entity_step_preserves_invariant(r: EntityRun, e: EntityEvent, owner: ThreadToken)
    requires
        entity_run_invariant(r, owner),
    ensures
        entity_run_invariant(entity_run_step(r, e), owner),
{
    match e {
        EntityEvent::EffectTick { current, viewer } => {
            if adds_entity(r.state, current, viewer) {
                assert(r.adds == 0);
            }
        },
        EntityEvent::EntityAdded { current, entity } => {
            if r.state.adding && current == r.state.entity.owner {
                assert(r.adds == 1);
            }
        },
        EntityEvent::Unmount { current, viewer } => {
            if unmount_removes(r.state, current, viewer) is Some {
                assert(r.state.entity.value is Some);
            }
        },
    }
}

/// A whole run preserves the inductive facts.
pub proof fn lemma_entity_run_preserves_invariant(
    r: EntityRun,
    events: Seq<EntityEvent>,
    owner: ThreadToken,
)
    requires
        entity_run_invariant(r, owner),
    ensures
        entity_run_invariant(entity_run(r, events), owner),
    decreases events.len(),
{
    if events.len() > 0 {
        lemma_entity_step_preserves_invariant(r, events[0], owner);
        lemma_entity_run_preserves_invariant(entity_run_step(r, events[0]), events.drop_first(), owner);
    }
}

/// Law: over the whole life of an entity component — any sequence of effect
/// ticks, add hand-backs and unmounts, on any threads — at most one foreign
/// entity-add call is ever commanded, and at most one remove.
pub proof fn lemma_entity_adds_and_removes_at_most_once(owner: ThreadToken, events: Seq<EntityEvent>)
    ensures
        entity_run(entity_fresh_run(owner), events).adds <= 1,
        entity_run(entity_fresh_run(owner), events).removes <= 1,
{
    lemma_entity_run_preserves_invariant(entity_fresh_run(owner), events, owner);
}

/// In a run without unmount events, nothing is removed and "ever stored"
/// coincides with "the entity slot is populated".
pub proof fn lemma_entity_prefix_facts(r: EntityRun, events: Seq<EntityEvent>, owner: ThreadToken)
    requires
        entity_run_invariant(r, owner),
        r.removes == 0,
        r.stored == (r.state.entity.value is Some),
        forall|i: int| 0 <= i < events.len() ==> !(#[trigger] events[i] is Unmount),
    ensures
        ({
            let out = entity_run(r, events);
            &&& out.removes == 0
            &&& out.stored == (out.state.entity.value is Some)
        }),
    decreases events.len(),
{
    if events.len() > 0 {
        lemma_entity_step_preserves_invariant(r, events[0], owner);
        lemma_entity_prefix_facts(entity_run_step(r, events[0]), events.drop_first(), owner);
    }
}

/// Law: when an entity component's life ends with an unmount on the owning
/// thread while the viewer is still observable, the foreign add call was
/// commanded exactly once if and only if an entity was stored; the remove
/// was then commanded exactly once, after the add, for the same viewer and
/// for exactly the handle the add stored; and the entity slot is empty
/// afterwards.
pub proof fn lemma_entity_mount_unmount_pairing(
    owner: ThreadToken,
    prefix: Seq<EntityEvent>,
    viewer: JsHandle,
)
    requires
        forall|i: int| 0 <= i < prefix.len() ==> !(#[trigger] prefix[i] is Unmount),
    ensures
        ({
            let before = entity_run(entity_fresh_run(owner), prefix);
            let after = entity_run_step(
                before,
                EntityEvent::Unmount { current: owner, viewer: Some(viewer) },
            );
            &&& after.state.entity.value is None
            &&& after.removes == (if before.stored {
                1int
            } else {
                0int
            })
            &&& (before.stored ==> unmount_removes(before.state, owner, Some(viewer))
                == Some((viewer, before.state.entity.value->0)))
            &&& after.adds == (if before.stored {
                1int
            } else {
                before.adds
            })
        }),
{
    lemma_entity_run_preserves_invariant(entity_fresh_run(owner), prefix, owner);
    lemma_entity_prefix_facts(entity_fresh_run(owner), prefix, owner);
}

/// The entity-declaring component: its inputs, its lifecycle flags, and the
/// context through which its children see the declared entity.
pub struct Entity {
    props: EntityProps,
    context: CesiumEntityContext,
    adding: bool,
    unmounted: bool,
}

impl Entity {
    /// The component's inputs.
    pub closed spec fn props_spec(&self) -> EntityProps {
        self.props
    }

    /// The component's entity slot.
    pub closed spec fn slot_spec(&self) -> SlotView {
        self.context@
    }

    /// Whether an add is in flight.
    pub closed spec fn adding_spec(&self) -> bool {
        self.adding
    }

    /// Whether the component has unmounted.
    pub closed spec fn unmounted_spec(&self) -> bool {
        self.unmounted
    }

    /// The component's lifecycle state.
    pub open spec fn lifecycle(&self) -> EntityLifecycle {
        EntityLifecycle {
            adding: self.adding_spec(),
            unmounted: self.unmounted_spec(),
            entity: self.slot_spec(),
        }
    }

    /// A freshly mounted entity component with the given inputs, owned by
    /// the thread identified by `owner`.
    pub fn new(owner: ThreadToken, props: EntityProps) -> (r: Self)
        ensures
            r.props_spec() == props,
            r.slot_spec() == (SlotView { owner, value: None::<JsHandle> }),
            !r.adding_spec(),
            !r.unmounted_spec(),
    {
        Entity {
            props,
            context: CesiumEntityContext::new(owner),
            adding: false,
            unmounted: false,
        }
    }

    /// The entity context this component provides to its child graphics
    /// components.
    pub fn context(&self) -> (r: &CesiumEntityContext)
        ensures
            r@ == self.slot_spec(),
    {
        &self.context
    }

    /// One creation-effect tick: decides whether to add the entity to the
    /// viewer's entity collection now. Returns the add command — with the
    /// viewer to address and the full option object — exactly when the
    /// state machine calls for one; otherwise nothing happens.
    pub fn create_effect(
        &mut self,
        viewer_ctx: &CesiumViewerContext,
        current: ThreadToken,
    ) -> (cmd: Option<AddEntity>)
        ensures
            final(self).lifecycle() == entity_effect_step(
                old(self).lifecycle(),
                current,
                slot_read(viewer_ctx@.viewer, current),
            ),
            cmd is Some <==> adds_entity(
                old(self).lifecycle(),
                current,
                slot_read(viewer_ctx@.viewer, current),
            ),
            cmd matches Some(c) ==> {
                &&& Some(c.viewer) == slot_read(viewer_ctx@.viewer, current)
                &&& c.options@ == entity_options_model(old(self).props_spec())
            },
            final(self).props_spec() == old(self).props_spec(),
            final(self).unmounted_spec() == old(self).unmounted_spec(),
    {
        if self.unmounted || self.adding || self.context.wrong_thread(current) {
            return None;
        }
        if self.context.entity_untracked(current).is_some() {
            return None;
        }
        let viewer = match viewer_ctx.viewer_untracked(current) {
            Some(v) => v,
            None => {
                return None;
            },
        };
        self.adding = true;
        Some(AddEntity { viewer, options: entity_options(&self.props) })
    }

    /// Stores the entity handle the host shell's add call returned,
    /// completing the add.
    pub fn store_entity(&mut self, current: ThreadToken, entity: JsHandle)
        requires
            old(self).adding_spec(),
            current == old(self).slot_spec().owner,
        ensures
            final(self).lifecycle() == entity_added_step(old(self).lifecycle(), current, entity),
            final(self).props_spec() == old(self).props_spec(),
    {
        self.adding = false;
        let _ = self.context.set_entity(current, entity);
    }

    /// Unmount: surrenders the viewer/entity pair for removal when both are
    /// observable on this thread, and clears the entity slot.
    pub fn unmount(
        &mut self,
        viewer_ctx: &CesiumViewerContext,
        current: ThreadToken,
    ) -> (remove: Option<(JsHandle, JsHandle)>)
        ensures
            remove == unmount_removes(
                old(self).lifecycle(),
                current,
                slot_read(viewer_ctx@.viewer, current),
            ),
            final(self).lifecycle() == entity_unmount_step(old(self).lifecycle(), current),
            final(self).props_spec() == old(self).props_spec(),
            final(self).unmounted_spec(),
    {
        self.adding = false;
        self.unmounted = true;
        let remove = match (viewer_ctx.viewer_untracked(current), self.context.entity_untracked(current)) {
            (Some(v), Some(e)) => Some((v, e)),
            _ => None,
        };
        self.context.clear_entity(current);
        remove
    }
}

} // verus!
