//! Per-shape graphics components.
//!
//! Each component mirrors one graphics kind of the engine's entities. On
//! every effect tick it rebuilds its option object from its inputs and, when
//! the parent entity is present, directs the host shell to assign that
//! object to the matching field of the entity.

use vstd::prelude::*;

use crate::bag::PropertyBag;
use crate::handle::JsHandle;

pub mod box_graphics;
pub mod corridor;
pub mod cylinder;
pub mod ellipse;
pub mod ellipsoid;
pub mod point;
pub mod polygon;
pub mod polyline;
pub mod polyline_volume;
pub mod rectangle;
pub mod wall;

verus! {

/// What the host shell must do after a graphics effect tick: assign the
/// option object to the named graphics field of the entity.
#[derive(Clone, PartialEq, Eq, Debug)]
pub struct GraphicsUpdate {
    pub entity: JsHandle,
    pub key: String,
    pub options: PropertyBag,
}

} // verus!
