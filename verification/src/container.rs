//! The viewer container: the component that owns the one engine instance of
//! a component tree.
//!
//! On each creation-effect tick the container decides whether to construct
//! the foreign viewer: only when the DOM surface is available, the context's
//! viewer slot is still empty, no construction is already in flight, the
//! container is still mounted, and the tick runs on the context's own
//! thread. The host shell performs the construction and hands the new handle
//! back, which moves the container from attaching to active. Unmount
//! surrenders the stored handle for destruction — exactly once — and clears
//! the slot.

use vstd::prelude::*;

use crate::bag::{bag_entry, PropertyBag, PropVal};
use crate::context::CesiumViewerContext;
use crate::handle::{JsHandle, ThreadToken};
use crate::slot::{slot_read, slot_step, SlotOp, SlotView};

verus! {

/// The container inputs that shape the foreign viewer's option object: an
/// optional engine access token and the widget toggles.
pub struct ContainerProps {
    pub ion_token: Option<String>,
    pub animation: bool,
    pub timeline: bool,
    pub base_layer_picker: bool,
    pub home_button: bool,
    pub scene_mode_picker: bool,
    pub navigation_help_button: bool,
    pub fullscreen_button: bool,
    pub info_box: bool,
    pub selection_indicator: bool,
    pub should_animate: bool,
}

impl Default for ContainerProps {
    /// No access token, and every widget toggle switched on.
    fn default() -> (r: Self)
        ensures
            r.ion_token == None::<String>,
            r.animation && r.timeline && r.base_layer_picker && r.home_button,
            r.scene_mode_picker && r.navigation_help_button && r.fullscreen_button,
            r.info_box && r.selection_indicator && r.should_animate,
    {
        ContainerProps {
            ion_token: None,
            animation: true,
            timeline: true,
            base_layer_picker: true,
            home_button: true,
            scene_mode_picker: true,
            navigation_help_button: true,
            fullscreen_button: true,
            info_box: true,
            selection_indicator: true,
            should_animate: true,
        }
    }
}

/// The option object handed to the foreign viewer constructor: every widget
/// toggle, in the order the container assigns them.
pub open spec fn viewer_options_model(p: ContainerProps) -> Seq<(Seq<char>, PropVal)> {
    bag_entry("animation"@, PropVal::Bool(p.animation))
        + bag_entry("timeline"@, PropVal::Bool(p.timeline))
        + bag_entry("baseLayerPicker"@, PropVal::Bool(p.base_layer_picker))
        + bag_entry("homeButton"@, PropVal::Bool(p.home_button))
        + bag_entry("sceneModePicker"@, PropVal::Bool(p.scene_mode_picker))
        + bag_entry("navigationHelpButton"@, PropVal::Bool(p.navigation_help_button))
        + bag_entry("fullscreenButton"@, PropVal::Bool(p.fullscreen_button))
        + bag_entry("infoBox"@, PropVal::Bool(p.info_box))
        + bag_entry("selectionIndicator"@, PropVal::Bool(p.selection_indicator))
        + bag_entry("shouldAnimate"@, PropVal::Bool(p.should_animate))
}

/// Builds the viewer option object from the container inputs.
pub fn viewer_options(p: &ContainerProps) -> (r: PropertyBag)
    ensures
        r@ == viewer_options_model(*p),
{
    let mut bag = PropertyBag::new();
    bag.push_bool("animation", p.animation);
    bag.push_bool("timeline", p.timeline);
    bag.push_bool("baseLayerPicker", p.base_layer_picker);
    bag.push_bool("homeButton", p.home_button);
    bag.push_bool("sceneModePicker", p.scene_mode_picker);
    bag.push_bool("navigationHelpButton", p.navigation_help_button);
    bag.push_bool("fullscreenButton", p.fullscreen_button);
    bag.push_bool("infoBox", p.info_box);
    bag.push_bool("selectionIndicator", p.selection_indicator);
    bag.push_bool("shouldAnimate", p.should_animate);
    bag
}

/// What the host shell must do after a creation-effect tick that decided to
/// construct the viewer: optionally set the engine access token first, then
/// construct the viewer with the given option object on the given surface.
#[derive(Clone, PartialEq, Eq, Debug)]
pub struct CreateViewer {
    pub set_token: Option<String>,
    pub surface: JsHandle,
    pub options: PropertyBag,
}

/// The lifecycle-relevant state of one container instance: its flags
/// together with the context's viewer slot.
pub struct Lifecycle {
    pub attaching: bool,
    pub unmounted: bool,
    pub viewer: SlotView,
}

/// One lifecycle event of a container instance.
pub enum LifecycleEvent {
    /// The creation effect ran; the DOM surface may or may not be available
    /// yet.
    EffectTick { current: ThreadToken, surface: Option<JsHandle> },
    /// The host shell finished constructing the viewer and hands the handle
    /// over.
    ViewerBuilt { current: ThreadToken, viewer: JsHandle },
    /// The component unmounted.
    Unmount { current: ThreadToken },
}

/// Whether a creation-effect tick in state `s` constructs the viewer.
pub open spec fn creates_viewer(s: Lifecycle, current: ThreadToken, surface: Option<JsHandle>) -> bool {
    &&& !s.unmounted
    &&& !s.attaching
    &&& current == s.viewer.owner
    &&& s.viewer.value is None
    &&& surface is Some
}

/// Effect of one creation-effect tick.
pub open spec fn effect_step(s: Lifecycle, current: ThreadToken, surface: Option<JsHandle>) -> Lifecycle {
    if creates_viewer(s, current, surface) {
        Lifecycle { attaching: true, ..s }
    } else {
        s
    }
}

/// Effect of the host shell handing the constructed viewer back: accepted
/// only while attaching and on the owning thread.
pub open spec fn built_step(s: Lifecycle, current: ThreadToken, viewer: JsHandle) -> Lifecycle {
    if s.attaching && current == s.viewer.owner {
        Lifecycle {
            attaching: false,
            unmounted: s.unmounted,
            viewer: slot_step(s.viewer, SlotOp::Store { current, handle: viewer }),
        }
    } else {
        s
    }
}

/// Effect of unmounting: the slot is cleared (on the owning thread) and the
/// stored handle, if any, is surrendered for destruction.
pub open spec fn unmount_step(s: Lifecycle, current: ThreadToken) -> Lifecycle {
    Lifecycle {
        attaching: false,
        unmounted: true,
        viewer: slot_step(s.viewer, SlotOp::Clear { current }),
    }
}

/// The handle an unmount in state `s` surrenders for destruction.
pub open spec fn unmount_destroys(s: Lifecycle, current: ThreadToken) -> Option<JsHandle> {
    slot_read(s.viewer, current)
}

/// Outcome of running a sequence of lifecycle events: the final state, how
/// many viewer constructions were commanded, how many handles were
/// surrendered for destruction, and whether a handle was ever stored.
pub struct LifecycleRun {
    pub state: Lifecycle,
    pub creates: int,
    pub destroys: int,
    pub stored: bool,
}

/// Effect of one lifecycle event on a running tally.
pub open spec fn run_step(r: LifecycleRun, e: LifecycleEvent) -> LifecycleRun {
    match e {
        LifecycleEvent::EffectTick { current, surface } => LifecycleRun {
            state: effect_step(r.state, current, surface),
            creates: r.creates + if creates_viewer(r.state, current, surface) {
                1int
            } else {
                0int
            },
            ..r
        },
        LifecycleEvent::ViewerBuilt { current, viewer } => LifecycleRun {
            state: built_step(r.state, current, viewer),
            stored: r.stored || (r.state.attaching && current == r.state.viewer.owner),
            ..r
        },
        LifecycleEvent::Unmount { current } => LifecycleRun {
            state: unmount_step(r.state, current),
            destroys: r.destroys + if unmount_destroys(r.state, current) is Some {
                1int
            } else {
                0int
            },
            ..r
        },
    }
}

/// Effect of a whole sequence of lifecycle events, first to last.
pub open spec fn lifecycle_run(r: LifecycleRun, events: Seq<LifecycleEvent>) -> LifecycleRun
    decreases events.len(),
{
    if events.len() == 0 {
        r
    } else {
        lifecycle_run(run_step(r, events[0]), events.drop_first())
    }
}

/// The tally at the start of a container's life: a fresh state, nothing
/// created, destroyed or stored.
pub open spec fn fresh_run(owner: ThreadToken) -> LifecycleRun {
    LifecycleRun {
        state: Lifecycle {
            attaching: false,
            unmounted: false,
            viewer: SlotView { owner, value: None },
        },
        creates: 0,
        destroys: 0,
        stored: false,
    }
}

/// Law: while the viewer slot remains populated, the creation effect is
/// idempotent — any number of further ticks construct nothing and change
/// nothing.
pub proof fn lemma_populated_effect_idempotent(r: LifecycleRun, events: Seq<LifecycleEvent>)
    requires
        r.state.viewer.value is Some,
        forall|i: int| 0 <= i < events.len() ==> #[trigger] events[i] is EffectTick,
    ensures
        lifecycle_run(r, events) == r,
    decreases events.len(),
{
    if events.len() > 0 {
        assert(run_step(r, events[0]) == r);
        lemma_populated_effect_idempotent(r, events.drop_first());
    }
}

/// The inductive facts that tie a container's tally to its state: a
/// construction is commanded at most once, a handle is only ever stored
/// after the one construction, and destruction happens at most once, only
/// after unmount.
pub open spec fn run_invariant(r: LifecycleRun, owner: ThreadToken) -> bool {
    &&& r.state.viewer.owner == owner
    &&& 0 <= r.creates <= 1
    &&& 0 <= r.destroys <= 1
    &&& r.creates == 0 ==> !r.state.attaching && r.state.viewer.value is None && !r.stored
    &&& r.creates == 1 ==> r.state.attaching || r.state.viewer.value is Some || r.state.unmounted
    &&& r.state.viewer.value is Some ==> r.stored
    &&& r.stored ==> r.creates == 1
    &&& r.destroys == 1 ==> r.state.unmounted && r.state.viewer.value is None
    &&& r.state.unmounted ==> !r.state.attaching
}

/// One event preserves the inductive facts.
pub proof fn lemma_run_step_preserves_invariant(r: LifecycleRun, e: LifecycleEvent, owner: ThreadToken)
    requires
        run_invariant(r, owner),
    ensures
        run_invariant(run_step(r, e), owner),
{
    match e {
        LifecycleEvent::EffectTick { current, surface } => {
            if creates_viewer(r.state, current, surface) {
                assert(r.creates == 0);
            }
        },
        LifecycleEvent::ViewerBuilt { current, viewer } => {
            if r.state.attaching && current == r.state.viewer.owner {
                assert(r.creates == 1);
            }
        },
        LifecycleEvent::Unmount { current } => {
            if unmount_destroys(r.state, current) is Some {
                assert(r.state.viewer.value is Some);
                assert(r.destroys == 0);
            }
        },
    }
}

/// A whole run preserves the inductive facts.
pub proof fn lemma_run_preserves_invariant(
    r: LifecycleRun,
    events: Seq<LifecycleEvent>,
    owner: ThreadToken,
)
    requires
        run_invariant(r, owner),
    ensures
        run_invariant(lifecycle_run(r, events), owner),
    decreases events.len(),
{
    if events.len() > 0 {
        lemma_run_step_preserves_invariant(r, events[0], owner);
        lemma_run_preserves_invariant(run_step(r, events[0]), events.drop_first(), owner);
    }
}

/// Law: over the whole life of a container instance — any sequence of
/// effect ticks, viewer hand-backs and unmounts, on any threads — at most
/// one engine instance is ever constructed.
pub proof fn lemma_at_most_one_create(owner: ThreadToken, events: Seq<LifecycleEvent>)
    ensures
        lifecycle_run(fresh_run(owner), events).creates <= 1,
{
    lemma_run_preserves_invariant(fresh_run(owner), events, owner);
}

/// Law: when a container's life ends with an unmount on the owning thread,
/// the viewer slot is empty afterwards, and the destroy command was issued
/// exactly once if — and only if — a viewer handle was ever stored.
pub proof fn lemma_unmount_exactly_once(owner: ThreadToken, prefix: Seq<LifecycleEvent>)
    requires
        forall|i: int| 0 <= i < prefix.len() ==> !(#[trigger] prefix[i] is Unmount),
    ensures
        ({
            let before = lifecycle_run(fresh_run(owner), prefix);
            let after = run_step(before, LifecycleEvent::Unmount { current: owner });
            &&& after.state.viewer.value is None
            &&& after.destroys == (if before.stored {
                1int
            } else {
                0int
            })
        }),
{
    lemma_run_preserves_invariant(fresh_run(owner), prefix, owner);
    lemma_no_unmount_means_no_destroy(fresh_run(owner), prefix, owner);
    lemma_stored_iff_populated(fresh_run(owner), prefix, owner);
}

/// In a run without unmount events, nothing is destroyed and "ever stored"
/// coincides with "the slot is populated".
pub proof fn lemma_no_unmount_means_no_destroy(
    r: LifecycleRun,
    events: Seq<LifecycleEvent>,
    owner: ThreadToken,
)
    requires
        run_invariant(r, owner),
        r.destroys == 0,
        forall|i: int| 0 <= i < events.len() ==> !(#[trigger] events[i] is Unmount),
    ensures
        lifecycle_run(r, events).destroys == 0,
    decreases events.len(),
{
    if events.len() > 0 {
        lemma_run_step_preserves_invariant(r, events[0], owner);
        lemma_no_unmount_means_no_destroy(run_step(r, events[0]), events.drop_first(), owner);
    }
}

/// In a run without unmount events, the slot is populated exactly when a
/// handle was stored at some point.
pub proof fn lemma_stored_iff_populated(
    r: LifecycleRun,
    events: Seq<LifecycleEvent>,
    owner: ThreadToken,
)
    requires
        run_invariant(r, owner),
        r.stored == (r.state.viewer.value is Some),
        forall|i: int| 0 <= i < events.len() ==> !(#[trigger] events[i] is Unmount),
    ensures
        ({
            let out = lifecycle_run(r, events);
            out.stored == (out.state.viewer.value is Some)
        }),
    decreases events.len(),
{
    if events.len() > 0 {
        lemma_run_step_preserves_invariant(r, events[0], owner);
        lemma_stored_iff_populated(run_step(r, events[0]), events.drop_first(), owner);
    }
}

/// The container component's own state: its inputs and its lifecycle flags.
/// The viewer handle itself lives in the [`CesiumViewerContext`] the
/// container provides to its descendants.
pub struct ViewerContainer {
    props: ContainerProps,
    attaching: bool,
    listener_attached: bool,
    unmounted: bool,
}

impl ViewerContainer {
    /// The container's inputs.
    pub closed spec fn props_spec(&self) -> ContainerProps {
        self.props
    }

    /// Whether a construction command is in flight.
    pub closed spec fn attaching_spec(&self) -> bool {
        self.attaching
    }

    /// Whether the selection listener has been attached in this active
    /// period.
    pub closed spec fn listener_spec(&self) -> bool {
        self.listener_attached
    }

    /// Whether the component has unmounted.
    pub closed spec fn unmounted_spec(&self) -> bool {
        self.unmounted
    }

    /// The container's lifecycle state, joined with the context's viewer
    /// slot.
    pub open spec fn lifecycle(&self, viewer: SlotView) -> Lifecycle {
        Lifecycle {
            attaching: self.attaching_spec(),
            unmounted: self.unmounted_spec(),
            viewer,
        }
    }

    /// A freshly mounted container with the given inputs.
    pub fn new(props: ContainerProps) -> (r: Self)
        ensures
            r.props_spec() == props,
            !r.attaching_spec(),
            !r.listener_spec(),
            !r.unmounted_spec(),
    {
        ViewerContainer { props, attaching: false, listener_attached: false, unmounted: false }
    }

    /// One creation-effect tick: decides whether to construct the foreign
    /// viewer now. Returns the construction command — with the access token
    /// to set first and the full option object — exactly when the state
    /// machine calls for one; otherwise nothing happens.
    pub fn create_effect(
        &mut self,
        ctx: &CesiumViewerContext,
        current: ThreadToken,
        surface: Option<JsHandle>,
    ) -> (cmd: Option<CreateViewer>)
        ensures
            final(self).lifecycle(ctx@.viewer) == effect_step(
                old(self).lifecycle(ctx@.viewer),
                current,
                surface,
            ),
            cmd is Some <==> creates_viewer(old(self).lifecycle(ctx@.viewer), current, surface),
            cmd matches Some(c) ==> {
                &&& c.set_token == old(self).props_spec().ion_token
                &&& Some(c.surface) == surface
                &&& c.options@ == viewer_options_model(old(self).props_spec())
            },
            final(self).props_spec() == old(self).props_spec(),
            final(self).listener_spec() == old(self).listener_spec(),
            final(self).unmounted_spec() == old(self).unmounted_spec(),
    {
        if self.unmounted || self.attaching || ctx.wrong_thread(current) {
            return None;
        }
        if ctx.viewer_untracked(current).is_some() {
            return None;
        }
        let surface_handle = match surface {
            Some(h) => h,
            None => {
                return None;
            },
        };
        self.attaching = true;
        let token = match &self.props.ion_token {
            Some(t) => Some(t.clone()),
            None => None,
        };
        Some(CreateViewer {
            set_token: token,
            surface: surface_handle,
            options: viewer_options(&self.props),
        })
    }

    /// Stores the viewer the host shell constructed, completing the attach:
    /// the handle goes into the context's guarded slot and the container
    /// becomes active.
    pub fn store_viewer(
        &mut self,
        ctx: &mut CesiumViewerContext,
        current: ThreadToken,
        viewer: JsHandle,
    )
        requires
            old(self).attaching_spec(),
            current == old(ctx).owner_spec(),
            old(ctx).wf(),
        ensures
            final(self).lifecycle(final(ctx)@.viewer) == built_step(
                old(self).lifecycle(old(ctx)@.viewer),
                current,
                viewer,
            ),
            final(ctx)@.selection == old(ctx)@.selection,
            final(ctx).wf(),
            final(self).props_spec() == old(self).props_spec(),
            final(self).listener_spec() == old(self).listener_spec(),
            final(self).unmounted_spec() == old(self).unmounted_spec(),
    {
        self.attaching = false;
        let _ = ctx.set_viewer(current, viewer);
    }

    /// One selection-listener effect tick: reports whether the host shell
    /// should attach the engine's selection-changed listener now. True
    /// exactly once per active period: the first tick that sees the viewer
    /// present.
    pub fn listener_effect(
        &mut self,
        ctx: &CesiumViewerContext,
        current: ThreadToken,
    ) -> (attach: bool)
        ensures
            attach == (slot_read(ctx@.viewer, current) is Some && !old(self).listener_spec()
                && !old(self).unmounted_spec()),
            final(self).listener_spec() == (old(self).listener_spec() || attach),
            final(self).props_spec() == old(self).props_spec(),
            final(self).attaching_spec() == old(self).attaching_spec(),
            final(self).unmounted_spec() == old(self).unmounted_spec(),
    {
        if self.unmounted || self.listener_attached {
            return false;
        }
        if ctx.viewer_untracked(current).is_some() {
            self.listener_attached = true;
            true
        } else {
            false
        }
    }

    /// One globe-visibility effect tick: when the viewer is present, the
    /// host shell must set the globe's visibility on it to `show_globe`.
    pub fn globe_effect(
        &self,
        ctx: &CesiumViewerContext,
        current: ThreadToken,
        show_globe: bool,
    ) -> (cmd: Option<(JsHandle, bool)>)
        ensures
            cmd == (match slot_read(ctx@.viewer, current) {
                Some(v) => Some((v, show_globe)),
                None => None::<(JsHandle, bool)>,
            }),
    {
        match ctx.viewer_untracked(current) {
            Some(v) => Some((v, show_globe)),
            None => None,
        }
    }

    /// Unmount: clears the viewer slot and surrenders the stored handle, if
    /// any, for destruction by the host shell.
    pub fn unmount(
        &mut self,
        ctx: &mut CesiumViewerContext,
        current: ThreadToken,
    ) -> (destroy: Option<JsHandle>)
        ensures
            destroy == unmount_destroys(old(self).lifecycle(old(ctx)@.viewer), current),
            final(self).lifecycle(final(ctx)@.viewer) == unmount_step(
                old(self).lifecycle(old(ctx)@.viewer),
                current,
            ),
            final(ctx)@.selection == old(ctx)@.selection,
            old(ctx).wf() ==> final(ctx).wf(),
            final(self).props_spec() == old(self).props_spec(),
            final(self).unmounted_spec(),
    {
        self.attaching = false;
        self.unmounted = true;
        let destroy = ctx.viewer_untracked(current);
        ctx.clear_viewer(current);
        destroy
    }
}

} // verus!
