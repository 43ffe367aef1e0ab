//! The ellipse graphics component: assigns the entity's `ellipse` graphics on every
//! effect tick while the parent entity is present.

use vstd::prelude::*;
use vstd::string::StringExecFns;

use crate::bag::{bag_entry, bag_opt_bool, bag_opt_raw, PropertyBag, PropVal};
use crate::context::CesiumEntityContext;
use crate::graphics::GraphicsUpdate;
use crate::handle::{JsHandle, ThreadToken};
use crate::materials::{opt_material_raw, Material};
use crate::slot::slot_read;

verus! {

/// The inputs of the ellipse graphics component.
#[derive(Clone, Copy, Debug)]
pub struct EllipseGraphics {
    pub semi_minor_axis: JsHandle,
    pub semi_major_axis: JsHandle,
    pub material: Option<Material>,
    pub outline: Option<bool>,
    pub outline_color: Option<JsHandle>,
    pub outline_width: Option<JsHandle>,
    pub rotation: Option<JsHandle>,
    pub st_rotation: Option<JsHandle>,
    pub extruded_height: Option<JsHandle>,
    pub height: Option<JsHandle>,
}

/// The option object this component assigns to the entity's `ellipse`
/// field: each optional input present exactly when it is given, in the
/// order the component assigns them.
pub open spec fn ellipse_options_model(g: EllipseGraphics) -> Seq<(Seq<char>, PropVal)> {
    bag_entry("semiMinorAxis"@, PropVal::Raw(g.semi_minor_axis))
        + bag_entry("semiMajorAxis"@, PropVal::Raw(g.semi_major_axis))
        + bag_opt_raw("material"@, opt_material_raw(g.material))
        + bag_opt_bool("outline"@, g.outline)
        + bag_opt_raw("outlineColor"@, g.outline_color)
        + bag_opt_raw("outlineWidth"@, g.outline_width)
        + bag_opt_raw("rotation"@, g.rotation)
        + bag_opt_raw("stRotation"@, g.st_rotation)
        + bag_opt_raw("extrudedHeight"@, g.extruded_height)
        + bag_opt_raw("height"@, g.height)
}

impl EllipseGraphics {
    /// Builds the option object from the component inputs.
    pub fn options(&self) -> (r: PropertyBag)
        ensures
            r@ == ellipse_options_model(*self),
    {
        let mut bag = PropertyBag::new();
        bag.push_raw("semiMinorAxis", self.semi_minor_axis);
        bag.push_raw("semiMajorAxis", self.semi_major_axis);
        if let Some(m) = &self.material {
            bag.push_raw("material", m.to_js_value());
        }
        if let Some(v) = self.outline {
            bag.push_bool("outline", v);
        }
        if let Some(v) = self.outline_color {
            bag.push_raw("outlineColor", v);
        }
        if let Some(v) = self.outline_width {
            bag.push_raw("outlineWidth", v);
        }
        if let Some(v) = self.rotation {
            bag.push_raw("rotation", v);
        }
        if let Some(v) = self.st_rotation {
            bag.push_raw("stRotation", v);
        }
        if let Some(v) = self.extruded_height {
            bag.push_raw("extrudedHeight", v);
        }
        if let Some(v) = self.height {
            bag.push_raw("height", v);
        }
        bag
    }

    /// One effect tick: while the parent entity is observable on this
    /// thread, the host shell must assign a freshly built option object to
    /// the entity's `ellipse` field.
    pub fn effect(&self, ctx: &CesiumEntityContext, current: ThreadToken) -> (cmd: Option<
        GraphicsUpdate,
    >)
        ensures
            cmd is Some <==> slot_read(ctx@, current) is Some,
            cmd matches Some(u) ==> {
                &&& Some(u.entity) == slot_read(ctx@, current)
                &&& u.key@ == "ellipse"@
                &&& u.options@ == ellipse_options_model(*self)
            },
    {
        match ctx.entity_untracked(current) {
            Some(entity) => Some(
                GraphicsUpdate {
                    entity,
                    key: String::from_str("ellipse"),
                    options: self.options(),
                },
            ),
            None => None,
        }
    }
}

} // verus!
