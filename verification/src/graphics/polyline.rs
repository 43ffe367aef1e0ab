//! The polyline graphics component: assigns the entity's `polyline` graphics on every
//! effect tick while the parent entity is present.

use vstd::prelude::*;
use vstd::string::StringExecFns;

use crate::bag::{bag_entry, bag_opt_bool, bag_opt_raw, PropertyBag, PropVal};
use crate::context::CesiumEntityContext;
use crate::graphics::GraphicsUpdate;
use crate::handle::{JsHandle, ThreadToken};
use crate::materials::{opt_material_raw, Material};
use crate::slot::slot_read;

verus! {

/// The inputs of the polyline graphics component.
#[derive(Clone, Copy, Debug)]
pub struct PolylineGraphics {
    pub positions: JsHandle,
    pub width: JsHandle,
    pub material: Option<Material>,
    pub clamp_to_ground: Option<bool>,
    pub show: Option<bool>,
    pub granularity: Option<JsHandle>,
    pub follow_surface: Option<bool>,
    pub depth_fail_material: Option<JsHandle>,
}

/// The option object this component assigns to the entity's `polyline`
/// field: each optional input present exactly when it is given, in the
/// order the component assigns them.
pub open spec fn polyline_options_model(g: PolylineGraphics) -> Seq<(Seq<char>, PropVal)> {
    bag_entry("positions"@, PropVal::Raw(g.positions))
        + bag_entry("width"@, PropVal::Raw(g.width))
        + bag_opt_raw("material"@, opt_material_raw(g.material))
        + bag_opt_bool("clampToGround"@, g.clamp_to_ground)
        + bag_opt_bool("show"@, g.show)
        + bag_opt_raw("granularity"@, g.granularity)
        + bag_opt_bool("followSurface"@, g.follow_surface)
        + bag_opt_raw("depthFailMaterial"@, g.depth_fail_material)
}

impl PolylineGraphics {
    /// Builds the option object from the component inputs.
    pub fn options(&self) -> (r: PropertyBag)
        ensures
            r@ == polyline_options_model(*self),
    {
        let mut bag = PropertyBag::new();
        bag.push_raw("positions", self.positions);
        bag.push_raw("width", self.width);
        if let Some(m) = &self.material {
            bag.push_raw("material", m.to_js_value());
        }
        if let Some(v) = self.clamp_to_ground {
            bag.push_bool("clampToGround", v);
        }
        if let Some(v) = self.show {
            bag.push_bool("show", v);
        }
        if let Some(v) = self.granularity {
            bag.push_raw("granularity", v);
        }
        if let Some(v) = self.follow_surface {
            bag.push_bool("followSurface", v);
        }
        if let Some(v) = self.depth_fail_material {
            bag.push_raw("depthFailMaterial", v);
        }
        bag
    }

    /// One effect tick: while the parent entity is observable on this
    /// thread, the host shell must assign a freshly built option object to
    /// the entity's `polyline` field.
    pub fn effect(&self, ctx: &CesiumEntityContext, current: ThreadToken) -> (cmd: Option<
        GraphicsUpdate,
    >)
        ensures
            cmd is Some <==> slot_read(ctx@, current) is Some,
            cmd matches Some(u) ==> {
                &&& Some(u.entity) == slot_read(ctx@, current)
                &&& u.key@ == "polyline"@
                &&& u.options@ == polyline_options_model(*self)
            },
    {
        match ctx.entity_untracked(current) {
            Some(entity) => Some(
                GraphicsUpdate {
                    entity,
                    key: String::from_str("polyline"),
                    options: self.options(),
                },
            ),
            None => None,
        }
    }
}

} // verus!
