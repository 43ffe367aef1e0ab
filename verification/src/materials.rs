//! Materials for entity graphics: a solid color or one of the engine's
//! patterned material properties, carried as opaque handles, together with
//! the option-object builders for the patterned materials.
//!
//! The host shell constructs the foreign material property from the built
//! option object and hands its handle back; components then pass the
//! material through into their graphics option objects.

use vstd::prelude::*;

use crate::bag::{bag_opt_raw, PropertyBag, PropVal};
use crate::handle::JsHandle;

verus! {

/// A material for entity graphics.
#[derive(Clone, Copy, PartialEq, Eq, Structural, Debug)]
pub enum Material {
    /// A solid color.
    Color(JsHandle),
    /// A stripe pattern.
    Stripe(JsHandle),
    /// A glowing polyline.
    PolylineGlow(JsHandle),
    /// A checkerboard pattern.
    Checkerboard(JsHandle),
}

/// The foreign value a material passes into an option object: whichever
/// handle it carries.
pub open spec fn material_raw(m: Material) -> JsHandle {
    match m {
        Material::Color(h) => h,
        Material::Stripe(h) => h,
        Material::PolylineGlow(h) => h,
        Material::Checkerboard(h) => h,
    }
}

/// The handle of an optional material.
pub open spec fn opt_material_raw(m: Option<Material>) -> Option<JsHandle> {
    match m {
        Some(m) => Some(material_raw(m)),
        None => None,
    }
}

impl Material {
    /// A solid color material.
    pub fn color(color: JsHandle) -> (r: Self)
        ensures
            r == Material::Color(color),
    {
        Material::Color(color)
    }

    /// A stripe material.
    pub fn stripe(stripe: JsHandle) -> (r: Self)
        ensures
            r == Material::Stripe(stripe),
    {
        Material::Stripe(stripe)
    }

    /// A polyline glow material.
    pub fn polyline_glow(glow: JsHandle) -> (r: Self)
        ensures
            r == Material::PolylineGlow(glow),
    {
        Material::PolylineGlow(glow)
    }

    /// A checkerboard material.
    pub fn checkerboard(checkerboard: JsHandle) -> (r: Self)
        ensures
            r == Material::Checkerboard(checkerboard),
    {
        Material::Checkerboard(checkerboard)
    }

    /// The handle to pass to the engine for this material.
    pub fn to_js_value(&self) -> (r: JsHandle)
        ensures
            r == material_raw(*self),
    {
        match self {
            Material::Color(h) => *h,
            Material::Stripe(h) => *h,
            Material::PolylineGlow(h) => *h,
            Material::Checkerboard(h) => *h,
        }
    }
}

/// Options for the engine's stripe material property.
#[derive(Clone, Copy, PartialEq, Eq, Structural, Debug, Default)]
pub struct StripeOptions {
    pub even_color: Option<JsHandle>,
    pub odd_color: Option<JsHandle>,
    pub repeat: Option<JsHandle>,
    pub offset: Option<JsHandle>,
}

/// The option object handed to the foreign stripe material constructor.
pub open spec fn stripe_options_model(o: StripeOptions) -> Seq<(Seq<char>, PropVal)> {
    bag_opt_raw("evenColor"@, o.even_color)
        + bag_opt_raw("oddColor"@, o.odd_color)
        + bag_opt_raw("repeat"@, o.repeat)
        + bag_opt_raw("offset"@, o.offset)
}

impl StripeOptions {
    /// Empty options: every field left to the engine's default.
    pub fn new() -> (r: Self)
        ensures
            r == (StripeOptions {
                even_color: None::<JsHandle>,
                odd_color: None::<JsHandle>,
                repeat: None::<JsHandle>,
                offset: None::<JsHandle>,
            }),
    {
        StripeOptions { even_color: None, odd_color: None, repeat: None, offset: None }
    }

    /// Sets the color of the even stripes.
    pub fn even_color(self, color: JsHandle) -> (r: Self)
        ensures
            r == (StripeOptions { even_color: Some(color), ..self }),
    {
        StripeOptions { even_color: Some(color), ..self }
    }

    /// Sets the color of the odd stripes.
    pub fn odd_color(self, color: JsHandle) -> (r: Self)
        ensures
            r == (StripeOptions { odd_color: Some(color), ..self }),
    {
        StripeOptions { odd_color: Some(color), ..self }
    }

    /// Sets how often the stripes repeat.
    pub fn repeat(self, repeat: JsHandle) -> (r: Self)
        ensures
            r == (StripeOptions { repeat: Some(repeat), ..self }),
    {
        StripeOptions { repeat: Some(repeat), ..self }
    }

    /// Sets the offset into the pattern.
    pub fn offset(self, offset: JsHandle) -> (r: Self)
        ensures
            r == (StripeOptions { offset: Some(offset), ..self }),
    {
        StripeOptions { offset: Some(offset), ..self }
    }

    /// Builds the option object for the foreign stripe material
    /// constructor.
    pub fn build(self) -> (r: PropertyBag)
        ensures
            r@ == stripe_options_model(self),
    {
        let mut bag = PropertyBag::new();
        if let Some(c) = self.even_color {
            bag.push_raw("evenColor", c);
        }
        if let Some(c) = self.odd_color {
            bag.push_raw("oddColor", c);
        }
        if let Some(v) = self.repeat {
            bag.push_raw("repeat", v);
        }
        if let Some(v) = self.offset {
            bag.push_raw("offset", v);
        }
        bag
    }
}

/// Options for the engine's checkerboard material property.
#[derive(Clone, Copy, PartialEq, Eq, Structural, Debug, Default)]
pub struct CheckerboardOptions {
    pub even_color: Option<JsHandle>,
    pub odd_color: Option<JsHandle>,
    pub repeat: Option<JsHandle>,
}

/// The option object handed to the foreign checkerboard material
/// constructor.
pub open spec fn checkerboard_options_model(o: CheckerboardOptions) -> Seq<(Seq<char>, PropVal)> {
    bag_opt_raw("evenColor"@, o.even_color)
        + bag_opt_raw("oddColor"@, o.odd_color)
        + bag_opt_raw("repeat"@, o.repeat)
}

impl CheckerboardOptions {
    /// Empty options: every field left to the engine's default.
    pub fn new() -> (r: Self)
        ensures
            r == (CheckerboardOptions {
                even_color: None::<JsHandle>,
                odd_color: None::<JsHandle>,
                repeat: None::<JsHandle>,
            }),
    {
        CheckerboardOptions { even_color: None, odd_color: None, repeat: None }
    }

    /// Sets the color of the even tiles.
    pub fn even_color(self, color: JsHandle) -> (r: Self)
        ensures
            r == (CheckerboardOptions { even_color: Some(color), ..self }),
    {
        CheckerboardOptions { even_color: Some(color), ..self }
    }

    /// Sets the color of the odd tiles.
    pub fn odd_color(self, color: JsHandle) -> (r: Self)
        ensures
            r == (CheckerboardOptions { odd_color: Some(color), ..self }),
    {
        CheckerboardOptions { odd_color: Some(color), ..self }
    }

    /// Sets how often the tiles repeat in each direction.
    pub fn repeat(self, repeat: JsHandle) -> (r: Self)
        ensures
            r == (CheckerboardOptions { repeat: Some(repeat), ..self }),
    {
        CheckerboardOptions { repeat: Some(repeat), ..self }
    }

    /// Builds the option object for the foreign checkerboard material
    /// constructor.
    pub fn build(self) -> (r: PropertyBag)
        ensures
            r@ == checkerboard_options_model(self),
    {
        let mut bag = PropertyBag::new();
        if let Some(c) = self.even_color {
            bag.push_raw("evenColor", c);
        }
        if let Some(c) = self.odd_color {
            bag.push_raw("oddColor", c);
        }
        if let Some(v) = self.repeat {
            bag.push_raw("repeat", v);
        }
        bag
    }
}

/// Options for the engine's polyline glow material property.
#[derive(Clone, Copy, PartialEq, Eq, Structural, Debug, Default)]
pub struct PolylineGlowOptions {
    pub color: Option<JsHandle>,
    pub glow_power: Option<JsHandle>,
    pub taper_power: Option<JsHandle>,
}

/// The option object handed to the foreign polyline glow material
/// constructor.
pub open spec fn polyline_glow_options_model(o: PolylineGlowOptions) -> Seq<(Seq<char>, PropVal)> {
    bag_opt_raw("color"@, o.color)
        + bag_opt_raw("glowPower"@, o.glow_power)
        + bag_opt_raw("taperPower"@, o.taper_power)
}

impl PolylineGlowOptions {
    /// Empty options: every field left to the engine's default.
    pub fn new() -> (r: Self)
        ensures
            r == (PolylineGlowOptions {
                color: None::<JsHandle>,
                glow_power: None::<JsHandle>,
                taper_power: None::<JsHandle>,
            }),
    {
        PolylineGlowOptions { color: None, glow_power: None, taper_power: None }
    }

    /// Sets the color of the line.
    pub fn color(self, color: JsHandle) -> (r: Self)
        ensures
            r == (PolylineGlowOptions { color: Some(color), ..self }),
    {
        PolylineGlowOptions { color: Some(color), ..self }
    }

    /// Sets the strength of the glow.
    pub fn glow_power(self, glow_power: JsHandle) -> (r: Self)
        ensures
            r == (PolylineGlowOptions { glow_power: Some(glow_power), ..self }),
    {
        PolylineGlowOptions { glow_power: Some(glow_power), ..self }
    }

    /// Sets how the glow tapers off.
    pub fn taper_power(self, taper_power: JsHandle) -> (r: Self)
        ensures
            r == (PolylineGlowOptions { taper_power: Some(taper_power), ..self }),
    {
        PolylineGlowOptions { taper_power: Some(taper_power), ..self }
    }

    /// Builds the option object for the foreign polyline glow material
    /// constructor.
    pub fn build(self) -> (r: PropertyBag)
        ensures
            r@ == polyline_glow_options_model(self),
    {
        let mut bag = PropertyBag::new();
        if let Some(c) = self.color {
            bag.push_raw("color", c);
        }
        if let Some(v) = self.glow_power {
            bag.push_raw("glowPower", v);
        }
        if let Some(v) = self.taper_power {
            bag.push_raw("taperPower", v);
        }
        bag
    }
}

} // verus!
