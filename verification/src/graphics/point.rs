//! The point graphics component: assigns the entity's `point` graphics on every
//! effect tick while the parent entity is present.

use vstd::prelude::*;
use vstd::string::StringExecFns;

use crate::bag::{bag_entry, bag_opt_bool, bag_opt_raw, PropertyBag, PropVal};
use crate::context::CesiumEntityContext;
use crate::graphics::GraphicsUpdate;
use crate::handle::{JsHandle, ThreadToken};
use crate::slot::slot_read;

verus! {

/// The inputs of the point graphics component.
#[derive(Clone, Copy, Debug)]
pub struct PointGraphics {
    pub pixel_size: JsHandle,
    pub color: Option<JsHandle>,
    pub outline: Option<bool>,
    pub outline_color: Option<JsHandle>,
    pub outline_width: Option<JsHandle>,
    pub show: Option<bool>,
    pub height_reference: Option<JsHandle>,
    pub disable_depth_test_distance: Option<JsHandle>,
}

/// The option object this component assigns to the entity's `point`
/// field: each optional input present exactly when it is given, under its
/// own field of the engine's point-graphics options, in the order the
/// component assigns them.
pub open spec fn point_options_model(g: PointGraphics) -> Seq<(Seq<char>, PropVal)> {
    bag_entry("pixelSize"@, PropVal::Raw(g.pixel_size))
        + bag_opt_raw("color"@, g.color)
        + bag_opt_bool("outline"@, g.outline)
        + bag_opt_raw("outlineColor"@, g.outline_color)
        + bag_opt_raw("outlineWidth"@, g.outline_width)
        + bag_opt_bool("show"@, g.show)
        + bag_opt_raw("heightReference"@, g.height_reference)
        + bag_opt_raw("disableDepthTestDistance"@, g.disable_depth_test_distance)
}

impl PointGraphics {
    /// Builds the option object from the component inputs.
    pub fn options(&self) -> (r: PropertyBag)
        ensures
            r@ == point_options_model(*self),
    {
        let mut bag = PropertyBag::new();
        bag.push_raw("pixelSize", self.pixel_size);
        if let Some(v) = self.color {
            bag.push_raw("color", v);
        }
        if let Some(v) = self.outline {
            bag.push_bool("outline", v);
        }
        if let Some(v) = self.outline_color {
            bag.push_raw("outlineColor", v);
        }
        if let Some(v) = self.outline_width {
            bag.push_raw("outlineWidth", v);
        }
        if let Some(v) = self.show {
            bag.push_bool("show", v);
        }
        if let Some(v) = self.height_reference {
            bag.push_raw("heightReference", v);
        }
        if let Some(v) = self.disable_depth_test_distance {
            bag.push_raw("disableDepthTestDistance", v);
        }
        bag
    }

    /// One effect tick: while the parent entity is observable on this
    /// thread, the host shell must assign a freshly built option object to
    /// the entity's `point` field.
    pub fn effect(&self, ctx: &CesiumEntityContext, current: ThreadToken) -> (cmd: Option<
        GraphicsUpdate,
    >)
        ensures
            cmd is Some <==> slot_read(ctx@, current) is Some,
            cmd matches Some(u) ==> {
                &&& Some(u.entity) == slot_read(ctx@, current)
                &&& u.key@ == "point"@
                &&& u.options@ == point_options_model(*self)
            },
    {
        match ctx.entity_untracked(current) {
            Some(entity) => Some(
                GraphicsUpdate {
                    entity,
                    key: String::from_str("point"),
                    options: self.options(),
                },
            ),
            None => None,
        }
    }
}

} // verus!
