//! Camera maneuver components and the option builders for the engine's
//! camera calls.
//!
//! A camera orientation is carried as its three components — heading, pitch
//! and roll — because the camera option objects spread them into a nested
//! object; destinations, offsets and bounding spheres pass through whole as
//! opaque handles.

use vstd::prelude::*;
use vstd::string::StringExecFns;

use crate::bag::{bag_entry, bag_opt_raw, PropertyBag, PropVal, RawEntry};
use crate::context::CesiumViewerContext;
use crate::handle::{JsHandle, ThreadToken};
use crate::slot::slot_read;

verus! {

/// A camera orientation: heading, pitch and roll, each an opaque foreign
/// number.
#[derive(Clone, Copy, PartialEq, Eq, Structural, Debug)]
pub struct HeadingPitchRoll {
    pub heading: JsHandle,
    pub pitch: JsHandle,
    pub roll: JsHandle,
}

impl HeadingPitchRoll {
    /// An orientation from its three components.
    pub fn new(heading: JsHandle, pitch: JsHandle, roll: JsHandle) -> (r: Self)
        ensures
            r == (HeadingPitchRoll { heading, pitch, roll }),
    {
        HeadingPitchRoll { heading, pitch, roll }
    }
}

/// The nested object an orientation spreads into: its three components
/// under their own keys.
pub open spec fn orientation_model(o: HeadingPitchRoll) -> Seq<(Seq<char>, JsHandle)> {
    seq![("heading"@, o.heading), ("pitch"@, o.pitch), ("roll"@, o.roll)]
}

/// Builds the nested orientation object.
pub fn orientation_entries(o: &HeadingPitchRoll) -> (r: Vec<RawEntry>)
    ensures
        r@.map_values(|e: RawEntry| e@) == orientation_model(*o),
{
    let mut entries: Vec<RawEntry> = Vec::new();
    entries.push(RawEntry { key: String::from_str("heading"), value: o.heading });
    entries.push(RawEntry { key: String::from_str("pitch"), value: o.pitch });
    entries.push(RawEntry { key: String::from_str("roll"), value: o.roll });
    proof {
        assert(entries@.map_values(|e: RawEntry| e@) =~= orientation_model(*o));
    }
    entries
}

/// The orientation's nested object as an optional assignment.
pub open spec fn bag_opt_orientation(
    key: Seq<char>,
    o: Option<HeadingPitchRoll>,
) -> Seq<(Seq<char>, PropVal)> {
    match o {
        Some(o) => seq![(key, PropVal::Object(orientation_model(o)))],
        None => seq![],
    }
}

/// Options for the camera's animated flight to a destination.
#[derive(Clone, PartialEq, Eq, Debug)]
pub struct FlyToOptions {
    pub destination: JsHandle,
    pub orientation: Option<HeadingPitchRoll>,
    pub duration: Option<JsHandle>,
    pub complete: Option<JsHandle>,
    pub cancel: Option<JsHandle>,
    pub offset: Option<JsHandle>,
}

/// The option object handed to the camera's fly-to call: the destination
/// always, then each optional field exactly when it is given, in the order
/// the builder assigns them.
pub open spec fn fly_to_options_model(o: FlyToOptions) -> Seq<(Seq<char>, PropVal)> {
    bag_entry("destination"@, PropVal::Raw(o.destination))
        + bag_opt_orientation("orientation"@, o.orientation)
        + bag_opt_raw("duration"@, o.duration)
        + bag_opt_raw("offset"@, o.offset)
        + bag_opt_raw("complete"@, o.complete)
        + bag_opt_raw("cancel"@, o.cancel)
}

impl FlyToOptions {
    /// Options with the required destination and nothing else.
    pub fn new(destination: JsHandle) -> (r: Self)
        ensures
            r == (FlyToOptions {
                destination,
                orientation: None::<HeadingPitchRoll>,
                duration: None::<JsHandle>,
                complete: None::<JsHandle>,
                cancel: None::<JsHandle>,
                offset: None::<JsHandle>,
            }),
    {
        FlyToOptions {
            destination,
            orientation: None,
            duration: None,
            complete: None,
            cancel: None,
            offset: None,
        }
    }

    /// Sets the camera orientation at the destination.
    pub fn orientation(self, orientation: HeadingPitchRoll) -> (r: Self)
        ensures
            r == (FlyToOptions { orientation: Some(orientation), ..self }),
    {
        FlyToOptions { orientation: Some(orientation), ..self }
    }

    /// Sets the flight duration.
    pub fn duration(self, duration: JsHandle) -> (r: Self)
        ensures
            r == (FlyToOptions { duration: Some(duration), ..self }),
    {
        FlyToOptions { duration: Some(duration), ..self }
    }

    /// Sets the offset from the destination.
    pub fn offset(self, offset: JsHandle) -> (r: Self)
        ensures
            r == (FlyToOptions { offset: Some(offset), ..self }),
    {
        FlyToOptions { offset: Some(offset), ..self }
    }

    /// Sets the callback to run when the flight completes.
    pub fn on_complete(self, callback: JsHandle) -> (r: Self)
        ensures
            r == (FlyToOptions { complete: Some(callback), ..self }),
    {
        FlyToOptions { complete: Some(callback), ..self }
    }

    /// Sets the callback to run if the flight is cancelled.
    pub fn on_cancel(self, callback: JsHandle) -> (r: Self)
        ensures
            r == (FlyToOptions { cancel: Some(callback), ..self }),
    {
        FlyToOptions { cancel: Some(callback), ..self }
    }

    /// Builds the option object for the camera's fly-to call.
    pub fn build(&self) -> (r: PropertyBag)
        ensures
            r@ == fly_to_options_model(*self),
    {
        let mut bag = PropertyBag::new();
        bag.push_raw("destination", self.destination);
        if let Some(o) = &self.orientation {
            bag.push_object("orientation", orientation_entries(o));
        }
        if let Some(d) = self.duration {
            bag.push_raw("duration", d);
        }
        if let Some(o) = self.offset {
            bag.push_raw("offset", o);
        }
        if let Some(c) = self.complete {
            bag.push_raw("complete", c);
        }
        if let Some(c) = self.cancel {
            bag.push_raw("cancel", c);
        }
        bag
    }
}

/// Options for placing the camera at a view immediately.
#[derive(Clone, PartialEq, Eq, Debug)]
pub struct SetViewOptions {
    pub destination: JsHandle,
    pub orientation: Option<HeadingPitchRoll>,
}

/// The option object handed to the camera's set-view call.
pub open spec fn set_view_options_model(o: SetViewOptions) -> Seq<(Seq<char>, PropVal)> {
    bag_entry("destination"@, PropVal::Raw(o.destination))
        + bag_opt_orientation("orientation"@, o.orientation)
}

impl SetViewOptions {
    /// Options with the required destination and nothing else.
    pub fn new(destination: JsHandle) -> (r: Self)
        ensures
            r == (SetViewOptions { destination, orientation: None::<HeadingPitchRoll> }),
    {
        SetViewOptions { destination, orientation: None }
    }

    /// Sets the camera orientation at the destination.
    pub fn orientation(self, orientation: HeadingPitchRoll) -> (r: Self)
        ensures
            r == (SetViewOptions { orientation: Some(orientation), ..self }),
    {
        SetViewOptions { orientation: Some(orientation), ..self }
    }

    /// Builds the option object for the camera's set-view call.
    pub fn build(&self) -> (r: PropertyBag)
        ensures
            r@ == set_view_options_model(*self),
    {
        let mut bag = PropertyBag::new();
        bag.push_raw("destination", self.destination);
        if let Some(o) = &self.orientation {
            bag.push_object("orientation", orientation_entries(o));
        }
        bag
    }
}

/// Flies the camera back to the home view whenever its trigger input
/// updates.
#[derive(Clone, PartialEq, Eq, Debug)]
pub struct CameraFlyHome {
    pub duration: JsHandle,
}

impl CameraFlyHome {
    /// One effect tick, run when the trigger updates: while the viewer is
    /// observable on this thread, the host shell must call the camera's
    /// fly-home with this duration.
    pub fn effect(&self, ctx: &CesiumViewerContext, current: ThreadToken) -> (cmd: Option<
        (JsHandle, JsHandle),
    >)
        ensures
            cmd == (match slot_read(ctx@.viewer, current) {
                Some(v) => Some((v, self.duration)),
                None => None::<(JsHandle, JsHandle)>,
            }),
    {
        match ctx.viewer_untracked(current) {
            Some(v) => Some((v, self.duration)),
            None => None,
        }
    }
}

/// Places the camera at a destination and orientation.
#[derive(Clone, PartialEq, Eq, Debug)]
pub struct CameraSetView {
    pub destination: JsHandle,
    pub orientation: Option<HeadingPitchRoll>,
}

impl CameraSetView {
    /// One effect tick: while the viewer is observable on this thread, the
    /// host shell must call the camera's set-view with the built option
    /// object.
    pub fn effect(&self, ctx: &CesiumViewerContext, current: ThreadToken) -> (cmd: Option<
        (JsHandle, PropertyBag),
    >)
        ensures
            cmd is Some <==> slot_read(ctx@.viewer, current) is Some,
            cmd matches Some((v, bag)) ==> {
                &&& Some(v) == slot_read(ctx@.viewer, current)
                &&& bag@ == set_view_options_model(
                    SetViewOptions { destination: self.destination, orientation: self.orientation },
                )
            },
    {
        let viewer = match ctx.viewer_untracked(current) {
            Some(v) => v,
            None => {
                return None;
            },
        };
        let mut options = SetViewOptions::new(self.destination);
        if let Some(o) = self.orientation {
            options = options.orientation(o);
        }
        Some((viewer, options.build()))
    }
}

/// Flies the camera to a destination over a duration.
#[derive(Clone, PartialEq, Eq, Debug)]
pub struct CameraFlyTo {
    pub destination: JsHandle,
    pub orientation: Option<HeadingPitchRoll>,
    pub duration: JsHandle,
    pub offset: Option<JsHandle>,
}

impl CameraFlyTo {
    /// One effect tick: while the viewer is observable on this thread, the
    /// host shell must call the camera's fly-to with the built option
    /// object, which always carries this component's duration.
    pub fn effect(&self, ctx: &CesiumViewerContext, current: ThreadToken) -> (cmd: Option<
        (JsHandle, PropertyBag),
    >)
        ensures
            cmd is Some <==> slot_read(ctx@.viewer, current) is Some,
            cmd matches Some((v, bag)) ==> {
                &&& Some(v) == slot_read(ctx@.viewer, current)
                &&& bag@ == fly_to_options_model(
                    FlyToOptions {
                        destination: self.destination,
                        orientation: self.orientation,
                        duration: Some(self.duration),
                        complete: None,
                        cancel: None,
                        offset: self.offset,
                    },
                )
            },
    {
        let viewer = match ctx.viewer_untracked(current) {
            Some(v) => v,
            None => {
                return None;
            },
        };
        let mut options = FlyToOptions::new(self.destination).duration(self.duration);
        if let Some(o) = self.orientation {
            options = options.orientation(o);
        }
        if let Some(o) = self.offset {
            options = options.offset(o);
        }
        Some((viewer, options.build()))
    }
}

/// The option object of a flight to a bounding sphere: the duration always,
/// and the offset when given.
pub open spec fn fly_to_bounding_sphere_options_model(
    duration: JsHandle,
    offset: Option<JsHandle>,
) -> Seq<(Seq<char>, PropVal)> {
    bag_entry("duration"@, PropVal::Raw(duration)) + bag_opt_raw("offset"@, offset)
}

/// Flies the camera to where a whole bounding sphere is visible.
#[derive(Clone, PartialEq, Eq, Debug)]
pub struct CameraFlyToBoundingSphere {
    pub target: JsHandle,
    pub offset: Option<JsHandle>,
    pub duration: JsHandle,
}

impl CameraFlyToBoundingSphere {
    /// One effect tick: while the viewer is observable on this thread, the
    /// host shell must call the camera's fly-to-bounding-sphere with this
    /// target and the built option object.
    pub fn effect(&self, ctx: &CesiumViewerContext, current: ThreadToken) -> (cmd: Option<
        (JsHandle, JsHandle, PropertyBag),
    >)
        ensures
            cmd is Some <==> slot_read(ctx@.viewer, current) is Some,
            cmd matches Some((v, target, bag)) ==> {
                &&& Some(v) == slot_read(ctx@.viewer, current)
                &&& target == self.target
                &&& bag@ == fly_to_bounding_sphere_options_model(self.duration, self.offset)
            },
    {
        let viewer = match ctx.viewer_untracked(current) {
            Some(v) => v,
            None => {
                return None;
            },
        };
        let mut bag = PropertyBag::new();
        bag.push_raw("duration", self.duration);
        if let Some(o) = self.offset {
            bag.push_raw("offset", o);
        }
        Some((viewer, self.target, bag))
    }
}

/// Resets the viewer clock to the present and stops animation whenever its
/// trigger input updates.
#[derive(Clone, PartialEq, Eq, Debug)]
pub struct ClockReset {
}

impl ClockReset {
    /// One effect tick, run when the trigger updates: while the viewer is
    /// observable on this thread, the host shell must set that viewer's
    /// clock to the current time and stop its animation.
    pub fn effect(&self, ctx: &CesiumViewerContext, current: ThreadToken) -> (cmd: Option<JsHandle>)
        ensures
            cmd == slot_read(ctx@.viewer, current),
    {
        ctx.viewer_untracked(current)
    }
}

} // verus!
