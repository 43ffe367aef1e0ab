//! Data-source components: bulk-load a structured scene description into
//! the viewer's data-source collection.
//!
//! Each effect tick that sees the viewer emits the foreign calls to make,
//! in order: when the clear-existing input is set, the removal of all
//! current data sources strictly precedes the new load. Load completion is
//! asynchronous; the completion decision re-checks that the component is
//! still mounted and the viewer still present before touching anything, so
//! a load that outlives its component — or the viewer itself — mutates
//! nothing.

use vstd::prelude::*;
use vstd::string::StringExecFns;

use crate::bag::{
    bag_opt_bool, bag_opt_raw, bag_opt_text, opt_text_view, PropertyBag, PropVal,
};
use crate::context::CesiumViewerContext;
use crate::handle::{JsHandle, ThreadToken};
use crate::slot::slot_read;

verus! {

/// One foreign call of a data-source effect tick, addressed to the viewer's
/// data-source collection.
#[derive(Clone, PartialEq, Eq, Debug)]
pub enum DataSourceCommand {
    /// Remove every data source currently in the collection.
    RemoveAll { viewer: JsHandle },
    /// Load the resource at `url` — with the given load options, if any —
    /// and add the result to the collection.
    Load { viewer: JsHandle, url: String, options: Option<PropertyBag> },
}

/// What a completed load reports back to its component.
#[derive(Clone, PartialEq, Eq, Debug)]
pub enum LoadOutcome {
    /// The load succeeded; for a time-dynamic scene description the host
    /// shell also reads the loaded source's clock and passes it along.
    Loaded { clock: Option<JsHandle> },
    /// The load was rejected; the host shell logs the error.
    Failed,
}

/// Declaratively loads a time-dynamic scene description (CZML) from a URL.
#[derive(Clone, PartialEq, Eq, Debug)]
pub struct CzmlDataSource {
    pub url: String,
    pub clear_existing: bool,
    /// Whether the component has unmounted; set by [`Self::unmount`], after
    /// which effects and load completions do nothing.
    pub unmounted: bool,
}

impl CzmlDataSource {
    /// A freshly mounted loader for the given URL.
    pub fn new(url: String, clear_existing: bool) -> (r: Self)
        ensures
            r.url == url,
            r.clear_existing == clear_existing,
            !r.unmounted,
    {
        CzmlDataSource { url, clear_existing, unmounted: false }
    }

    /// One effect tick: while the component is mounted and the viewer is
    /// observable on this thread, the host shell must perform the returned
    /// calls in order — first the removal of all existing data sources when
    /// `clear_existing` is set, then the load-and-add of this component's
    /// URL.
    pub fn effect(&self, ctx: &CesiumViewerContext, current: ThreadToken) -> (cmds: Vec<
        DataSourceCommand,
    >)
        ensures
            self.unmounted || slot_read(ctx@.viewer, current) is None ==> cmds@.len() == 0,
            !self.unmounted ==> (slot_read(ctx@.viewer, current) matches Some(v) ==> {
                &&& cmds@.len() == (if self.clear_existing {
                    2int
                } else {
                    1int
                })
                &&& self.clear_existing ==> cmds@[0] == (DataSourceCommand::RemoveAll { viewer: v })
                &&& cmds@.last() matches DataSourceCommand::Load { viewer, url, options } && viewer
                    == v && url@ == self.url@ && options is None
            }),
    {
        if self.unmounted {
            return Vec::new();
        }
        let viewer = match ctx.viewer_untracked(current) {
            Some(v) => v,
            None => {
                return Vec::new();
            },
        };
        let mut cmds: Vec<DataSourceCommand> = Vec::new();
        if self.clear_existing {
            cmds.push(DataSourceCommand::RemoveAll { viewer });
        }
        cmds.push(DataSourceCommand::Load { viewer, url: self.url.clone(), options: None });
        cmds
    }

    /// The completion decision for a load this component started: when the
    /// load succeeded with a clock, the component is still mounted, and the
    /// viewer is still observable on this thread, the host shell must adopt
    /// that clock as the viewer's and start animation. In every other case —
    /// a failed load, a component that unmounted while the load was in
    /// flight, or a viewer that has since gone away — nothing is touched.
    pub fn load_complete(
        &self,
        ctx: &CesiumViewerContext,
        current: ThreadToken,
        outcome: LoadOutcome,
    ) -> (adopt: Option<(JsHandle, JsHandle)>)
        ensures
            adopt == (if self.unmounted {
                None::<(JsHandle, JsHandle)>
            } else {
                match (slot_read(ctx@.viewer, current), outcome) {
                    (Some(v), LoadOutcome::Loaded { clock: Some(c) }) => Some((v, c)),
                    _ => None::<(JsHandle, JsHandle)>,
                }
            }),
    {
        if self.unmounted {
            return None;
        }
        match (ctx.viewer_untracked(current), outcome) {
            (Some(v), LoadOutcome::Loaded { clock: Some(c) }) => Some((v, c)),
            _ => None,
        }
    }

    /// Unmount: while the viewer is observable on this thread, the host
    /// shell must remove all data sources from it. Afterwards this
    /// component's effects and load completions do nothing.
    pub fn unmount(&mut self, ctx: &CesiumViewerContext, current: ThreadToken) -> (clear: Option<
        JsHandle,
    >)
        ensures
            clear == slot_read(ctx@.viewer, current),
            final(self).unmounted,
            final(self).url == old(self).url,
            final(self).clear_existing == old(self).clear_existing,
    {
        self.unmounted = true;
        ctx.viewer_untracked(current)
    }
}

/// Load options for a geographic-feature (GeoJSON / TopoJSON) data source.
#[derive(Clone, PartialEq, Eq, Debug)]
pub struct GeoJsonLoadOptions {
    pub stroke: Option<JsHandle>,
    pub stroke_width: Option<JsHandle>,
    pub fill: Option<JsHandle>,
    pub marker_color: Option<JsHandle>,
    pub marker_size: Option<JsHandle>,
    pub marker_symbol: Option<String>,
    pub clamp_to_ground: Option<bool>,
    pub credit: Option<String>,
}

/// The option object handed to the foreign geographic-feature load call.
pub open spec fn geojson_options_model(o: GeoJsonLoadOptions) -> Seq<(Seq<char>, PropVal)> {
    bag_opt_raw("stroke"@, o.stroke)
        + bag_opt_raw("strokeWidth"@, o.stroke_width)
        + bag_opt_raw("fill"@, o.fill)
        + bag_opt_raw("markerColor"@, o.marker_color)
        + bag_opt_raw("markerSize"@, o.marker_size)
        + bag_opt_text("markerSymbol"@, opt_text_view(o.marker_symbol))
        + bag_opt_bool("clampToGround"@, o.clamp_to_ground)
        + bag_opt_text("credit"@, opt_text_view(o.credit))
}

impl GeoJsonLoadOptions {
    /// Empty options: every styling choice left to the engine's default.
    pub fn new() -> (r: Self)
        ensures
            r.stroke is None,
            r.stroke_width is None,
            r.fill is None,
            r.marker_color is None,
            r.marker_size is None,
            r.marker_symbol is None,
            r.clamp_to_ground is None,
            r.credit is None,
    {
        GeoJsonLoadOptions {
            stroke: None,
            stroke_width: None,
            fill: None,
            marker_color: None,
            marker_size: None,
            marker_symbol: None,
            clamp_to_ground: None,
            credit: None,
        }
    }

    /// Sets the stroke color for polylines and polygon outlines.
    pub fn stroke(self, color: JsHandle) -> (r: Self)
        ensures
            r == (GeoJsonLoadOptions { stroke: Some(color), ..self }),
    {
        GeoJsonLoadOptions { stroke: Some(color), ..self }
    }

    /// Sets the stroke width for polylines and polygon outlines.
    pub fn stroke_width(self, width: JsHandle) -> (r: Self)
        ensures
            r == (GeoJsonLoadOptions { stroke_width: Some(width), ..self }),
    {
        GeoJsonLoadOptions { stroke_width: Some(width), ..self }
    }

    /// Sets the fill color for polygons.
    pub fn fill(self, color: JsHandle) -> (r: Self)
        ensures
            r == (GeoJsonLoadOptions { fill: Some(color), ..self }),
    {
        GeoJsonLoadOptions { fill: Some(color), ..self }
    }

    /// Sets the marker color for point features.
    pub fn marker_color(self, color: JsHandle) -> (r: Self)
        ensures
            r == (GeoJsonLoadOptions { marker_color: Some(color), ..self }),
    {
        GeoJsonLoadOptions { marker_color: Some(color), ..self }
    }

    /// Sets the marker size for point features.
    pub fn marker_size(self, size: JsHandle) -> (r: Self)
        ensures
            r == (GeoJsonLoadOptions { marker_size: Some(size), ..self }),
    {
        GeoJsonLoadOptions { marker_size: Some(size), ..self }
    }

    /// Sets the marker symbol for point features.
    pub fn marker_symbol(self, symbol: String) -> (r: Self)
        ensures
            r == (GeoJsonLoadOptions { marker_symbol: Some(symbol), ..self }),
    {
        GeoJsonLoadOptions { marker_symbol: Some(symbol), ..self }
    }

    /// Sets whether features are clamped to the ground.
    pub fn clamp_to_ground(self, clamp: bool) -> (r: Self)
        ensures
            r == (GeoJsonLoadOptions { clamp_to_ground: Some(clamp), ..self }),
    {
        GeoJsonLoadOptions { clamp_to_ground: Some(clamp), ..self }
    }

    /// Sets the credit text shown for the data.
    pub fn credit(self, credit: String) -> (r: Self)
        ensures
            r == (GeoJsonLoadOptions { credit: Some(credit), ..self }),
    {
        GeoJsonLoadOptions { credit: Some(credit), ..self }
    }

    /// Whether any styling choice is set at all.
    pub open spec fn any_set(&self) -> bool {
        ||| self.stroke is Some
        ||| self.stroke_width is Some
        ||| self.fill is Some
        ||| self.marker_color is Some
        ||| self.marker_size is Some
        ||| self.marker_symbol is Some
        ||| self.clamp_to_ground is Some
        ||| self.credit is Some
    }

    /// Builds the option object for the foreign load call.
    pub fn build(&self) -> (r: PropertyBag)
        ensures
            r@ == geojson_options_model(*self),
    {
        let mut bag = PropertyBag::new();
        if let Some(c) = self.stroke {
            bag.push_raw("stroke", c);
        }
        if let Some(w) = self.stroke_width {
            bag.push_raw("strokeWidth", w);
        }
        if let Some(c) = self.fill {
            bag.push_raw("fill", c);
        }
        if let Some(c) = self.marker_color {
            bag.push_raw("markerColor", c);
        }
        if let Some(s) = self.marker_size {
            bag.push_raw("markerSize", s);
        }
        if let Some(s) = &self.marker_symbol {
            bag.push_text("markerSymbol", s.clone());
        }
        if let Some(c) = self.clamp_to_ground {
            bag.push_bool("clampToGround", c);
        }
        if let Some(c) = &self.credit {
            bag.push_text("credit", c.clone());
        }
        bag
    }
}

/// Declaratively loads a geographic-feature (GeoJSON / TopoJSON) data
/// source from a URL, with optional styling.
#[derive(Clone, PartialEq, Eq, Debug)]
pub struct GeoJsonDataSource {
    pub url: String,
    pub clear_existing: bool,
    pub styling: GeoJsonLoadOptions,
    /// Whether the component has unmounted; set by [`Self::unmount`], after
    /// which effects and load completions do nothing.
    pub unmounted: bool,
}

impl GeoJsonDataSource {
    /// A freshly mounted loader for the given URL and styling.
    pub fn new(url: String, clear_existing: bool, styling: GeoJsonLoadOptions) -> (r: Self)
        ensures
            r.url == url,
            r.clear_existing == clear_existing,
            r.styling == styling,
            !r.unmounted,
    {
        GeoJsonDataSource { url, clear_existing, styling, unmounted: false }
    }

    /// One effect tick: while the component is mounted and the viewer is
    /// observable on this thread, the host shell must perform the returned
    /// calls in order — first the removal of all existing data sources when
    /// `clear_existing` is set, then the load-and-add of this component's
    /// URL. The load carries an option object exactly when some styling
    /// choice is set.
    pub fn effect(&self, ctx: &CesiumViewerContext, current: ThreadToken) -> (cmds: Vec<
        DataSourceCommand,
    >)
        ensures
            self.unmounted || slot_read(ctx@.viewer, current) is None ==> cmds@.len() == 0,
            !self.unmounted ==> (slot_read(ctx@.viewer, current) matches Some(v) ==> {
                &&& cmds@.len() == (if self.clear_existing {
                    2int
                } else {
                    1int
                })
                &&& self.clear_existing ==> cmds@[0] == (DataSourceCommand::RemoveAll { viewer: v })
                &&& cmds@.last() matches DataSourceCommand::Load { viewer, url, options } && viewer
                    == v && url@ == self.url@ && (match options {
                    Some(bag) => self.styling.any_set() && bag@ == geojson_options_model(
                        self.styling,
                    ),
                    None => !self.styling.any_set(),
                })
            }),
    {
        if self.unmounted {
            return Vec::new();
        }
        let viewer = match ctx.viewer_untracked(current) {
            Some(v) => v,
            None => {
                return Vec::new();
            },
        };
        let has_options = self.styling.stroke.is_some() || self.styling.stroke_width.is_some()
            || self.styling.fill.is_some() || self.styling.marker_color.is_some()
            || self.styling.marker_size.is_some() || self.styling.marker_symbol.is_some()
            || self.styling.clamp_to_ground.is_some() || self.styling.credit.is_some();
        let options = if has_options {
            Some(self.styling.build())
        } else {
            None
        };
        let mut cmds: Vec<DataSourceCommand> = Vec::new();
        if self.clear_existing {
            cmds.push(DataSourceCommand::RemoveAll { viewer });
        }
        cmds.push(DataSourceCommand::Load { viewer, url: self.url.clone(), options });
        cmds
    }

    /// Unmount: while the viewer is observable on this thread, the host
    /// shell must remove all data sources from it. Afterwards this
    /// component's effects do nothing.
    pub fn unmount(&mut self, ctx: &CesiumViewerContext, current: ThreadToken) -> (clear: Option<
        JsHandle,
    >)
        ensures
            clear == slot_read(ctx@.viewer, current),
            final(self).unmounted,
            final(self).url == old(self).url,
            final(self).clear_existing == old(self).clear_existing,
            final(self).styling == old(self).styling,
    {
        self.unmounted = true;
        ctx.viewer_untracked(current)
    }
}

} // verus!
