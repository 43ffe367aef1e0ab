//! The polygon graphics component: assigns the entity's `polygon` graphics on every
//! effect tick while the parent entity is present.

use vstd::prelude::*;
use vstd::string::StringExecFns;

use crate::bag::{bag_entry, bag_opt_bool, bag_opt_raw, PropertyBag, PropVal};
use crate::context::CesiumEntityContext;
use crate::graphics::GraphicsUpdate;
use crate::handle::{JsHandle, ThreadToken};
use crate::materials::{opt_material_raw, Material};
use crate::slot::slot_read;

verus! {

/// The inputs of the polygon graphics component.
#[derive(Clone, Copy, Debug)]
pub struct PolygonGraphics {
    pub hierarchy: JsHandle,
    pub material: Option<Material>,
    pub outline: Option<bool>,
    pub outline_color: Option<JsHandle>,
    pub outline_width: Option<JsHandle>,
    pub extruded_height: Option<JsHandle>,
    pub height: Option<JsHandle>,
}

/// The option object this component assigns to the entity's `polygon`
/// field: each optional input present exactly when it is given, in the
/// order the component assigns them.
pub open spec fn polygon_options_model(g: PolygonGraphics) -> Seq<(Seq<char>, PropVal)> {
    bag_entry("hierarchy"@, PropVal::Raw(g.hierarchy))
        + bag_opt_raw("material"@, opt_material_raw(g.material))
        + bag_opt_bool("outline"@, g.outline)
        + bag_opt_raw("outlineColor"@, g.outline_color)
        + bag_opt_raw("outlineWidth"@, g.outline_width)
        + bag_opt_raw("extrudedHeight"@, g.extruded_height)
        + bag_opt_raw("height"@, g.height)
}

impl PolygonGraphics {
    /// Builds the option object from the component inputs.
    pub fn options(&self) -> (r: PropertyBag)
        ensures
            r@ == polygon_options_model(*self),
    {
        let mut bag = PropertyBag::new();
        bag.push_raw("hierarchy", self.hierarchy);
        if let Some(m) = &self.material {
            bag.push_raw("material", m.to_js_value());
        }
        if let Some(v) = self.outline {
            bag.push_bool("outline", v);
        }
        if let Some(v) = self.outline_color {
            bag.push_raw("outlineColor", v);
        }
        if let Some(v) = self.outline_width {
            bag.push_raw("outlineWidth", v);
        }
        if let Some(v) = self.extruded_height {
            bag.push_raw("extrudedHeight", v);
        }
        if let Some(v) = self.height {
            bag.push_raw("height", v);
        }
        bag
    }

    /// One effect tick: while the parent entity is observable on this
    /// thread, the host shell must assign a freshly built option object to
    /// the entity's `polygon` field.
    pub fn effect(&self, ctx: &CesiumEntityContext, current: ThreadToken) -> (cmd: Option<
        GraphicsUpdate,
    >)
        ensures
            cmd is Some <==> slot_read(ctx@, current) is Some,
            cmd matches Some(u) ==> {
                &&& Some(u.entity) == slot_read(ctx@, current)
                &&& u.key@ == "polygon"@
                &&& u.options@ == polygon_options_model(*self)
            },
    {
        match ctx.entity_untracked(current) {
            Some(entity) => Some(
                GraphicsUpdate {
                    entity,
                    key: String::from_str("polygon"),
                    options: self.options(),
                },
            ),
            None => None,
        }
    }
}

} // verus!
