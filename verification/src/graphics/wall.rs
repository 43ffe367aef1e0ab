//! The wall graphics component: assigns the entity's `wall` graphics on every
//! effect tick while the parent entity is present.

use vstd::prelude::*;
use vstd::string::StringExecFns;

use crate::bag::{bag_entry, bag_opt_bool, bag_opt_raw, PropertyBag, PropVal};
use crate::context::CesiumEntityContext;
use crate::graphics::GraphicsUpdate;
use crate::handle::{JsHandle, ThreadToken};
use crate::materials::{opt_material_raw, Material};
use crate::slot::slot_read;

verus! {

/// The inputs of the wall graphics component.
#[derive(Clone, Copy, Debug)]
pub struct WallGraphics {
    pub positions: JsHandle,
    pub material: Option<Material>,
    pub maximum_heights: Option<JsHandle>,
    pub minimum_heights: Option<JsHandle>,
    pub outline: Option<bool>,
    pub outline_color: Option<JsHandle>,
    pub outline_width: Option<JsHandle>,
    pub fill: Option<bool>,
    pub show: Option<bool>,
    pub granularity: Option<JsHandle>,
}

/// The option object this component assigns to the entity's `wall`
/// field: each optional input present exactly when it is given, in the
/// order the component assigns them.
pub open spec fn wall_options_model(g: WallGraphics) -> Seq<(Seq<char>, PropVal)> {
    bag_entry("positions"@, PropVal::Raw(g.positions))
        + bag_opt_raw("material"@, opt_material_raw(g.material))
        + bag_opt_raw("maximumHeights"@, g.maximum_heights)
        + bag_opt_raw("minimumHeights"@, g.minimum_heights)
        + bag_opt_bool("outline"@, g.outline)
        + bag_opt_raw("outlineColor"@, g.outline_color)
        + bag_opt_raw("outlineWidth"@, g.outline_width)
        + bag_opt_bool("fill"@, g.fill)
        + bag_opt_bool("show"@, g.show)
        + bag_opt_raw("granularity"@, g.granularity)
}

impl WallGraphics {
    /// Builds the option object from the component inputs.
    pub fn options(&self) -> (r: PropertyBag)
        ensures
            r@ == wall_options_model(*self),
    {
        let mut bag = PropertyBag::new();
        bag.push_raw("positions", self.positions);
        if let Some(m) = &self.material {
            bag.push_raw("material", m.to_js_value());
        }
        if let Some(v) = self.maximum_heights {
            bag.push_raw("maximumHeights", v);
        }
        if let Some(v) = self.minimum_heights {
            bag.push_raw("minimumHeights", v);
        }
        if let Some(v) = self.outline {
            bag.push_bool("outline", v);
        }
        if let Some(v) = self.outline_color {
            bag.push_raw("outlineColor", v);
        }
        if let Some(v) = self.outline_width {
            bag.push_raw("outlineWidth", v);
        }
        if let Some(v) = self.fill {
            bag.push_bool("fill", v);
        }
        if let Some(v) = self.show {
            bag.push_bool("show", v);
        }
        if let Some(v) = self.granularity {
            bag.push_raw("granularity", v);
        }
        bag
    }

    /// One effect tick: while the parent entity is observable on this
    /// thread, the host shell must assign a freshly built option object to
    /// the entity's `wall` field.
    pub fn effect(&self, ctx: &CesiumEntityContext, current: ThreadToken) -> (cmd: Option<
        GraphicsUpdate,
    >)
        ensures
            cmd is Some <==> slot_read(ctx@, current) is Some,
            cmd matches Some(u) ==> {
                &&& Some(u.entity) == slot_read(ctx@, current)
                &&& u.key@ == "wall"@
                &&& u.options@ == wall_options_model(*self)
            },
    {
        match ctx.entity_untracked(current) {
            Some(entity) => Some(
                GraphicsUpdate {
                    entity,
                    key: String::from_str("wall"),
                    options: self.options(),
                },
            ),
            None => None,
        }
    }
}

} // verus!
