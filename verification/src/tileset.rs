//! The photorealistic 3D tiles component: loads the engine's global 3D
//! tileset and keeps it in the scene while mounted.

use vstd::prelude::*;

use crate::bag::{bag_entry, bag_opt_bool, bag_opt_raw, bag_opt_text, bag_opt_uint, opt_text_view, PropertyBag, PropVal};
use crate::context::CesiumViewerContext;
use crate::handle::{JsHandle, ThreadToken};
use crate::slot::slot_read;

verus! {

/// Options of the tileset provider's own API: an optional service key, and
/// the confirmation that the tileset is only used with the matching
/// geocoder.
#[derive(Clone, PartialEq, Eq, Debug)]
pub struct GooglePhotorealistic3DTilesApiOptions {
    pub key: Option<String>,
    pub only_using_with_google_geocoder: bool,
}

impl Default for GooglePhotorealistic3DTilesApiOptions {
    /// No service key, and the geocoder confirmation given.
    fn default() -> (r: Self)
        ensures
            r.key == None::<String>,
            r.only_using_with_google_geocoder,
    {
        GooglePhotorealistic3DTilesApiOptions { key: None, only_using_with_google_geocoder: true }
    }
}

/// The option object handed to the tileset provider's API.
pub open spec fn api_options_model(
    o: GooglePhotorealistic3DTilesApiOptions,
) -> Seq<(Seq<char>, PropVal)> {
    bag_opt_text("key"@, opt_text_view(o.key))
        + bag_entry("onlyUsingWithGoogleGeocoder"@, PropVal::Bool(o.only_using_with_google_geocoder))
}

impl GooglePhotorealistic3DTilesApiOptions {
    /// Builds the option object for the tileset provider's API.
    pub fn to_js_value(&self) -> (r: PropertyBag)
        ensures
            r@ == api_options_model(*self),
    {
        let mut bag = PropertyBag::new();
        if let Some(k) = &self.key {
            bag.push_text("key", k.clone());
        }
        bag.push_bool("onlyUsingWithGoogleGeocoder", self.only_using_with_google_geocoder);
        bag
    }
}

/// Options of the engine's tileset constructor: cache sizes in bytes,
/// collision detection, and the screen-space error bound.
#[derive(Clone, PartialEq, Eq, Debug)]
pub struct Cesium3DTilesetOptions {
    pub cache_bytes: Option<u32>,
    pub maximum_cache_overflow_bytes: Option<u32>,
    pub enable_collision: Option<bool>,
    pub maximum_screen_space_error: Option<JsHandle>,
}

impl Default for Cesium3DTilesetOptions {
    /// A three-halves-gigabyte cache with one gigabyte of overflow,
    /// collision detection on, and the error bound left to the engine.
    fn default() -> (r: Self)
        ensures
            r.cache_bytes == Some(1610612736u32),
            r.maximum_cache_overflow_bytes == Some(1073741824u32),
            r.enable_collision == Some(true),
            r.maximum_screen_space_error == None::<JsHandle>,
    {
        Cesium3DTilesetOptions {
            cache_bytes: Some(1536 * 1024 * 1024),
            maximum_cache_overflow_bytes: Some(1024 * 1024 * 1024),
            enable_collision: Some(true),
            maximum_screen_space_error: None,
        }
    }
}

/// The option object handed to the engine's tileset constructor.
pub open spec fn tileset_options_model(o: Cesium3DTilesetOptions) -> Seq<(Seq<char>, PropVal)> {
    bag_opt_uint("cacheBytes"@, o.cache_bytes)
        + bag_opt_uint("maximumCacheOverflowBytes"@, o.maximum_cache_overflow_bytes)
        + bag_opt_bool("enableCollision"@, o.enable_collision)
        + bag_opt_raw("maximumScreenSpaceError"@, o.maximum_screen_space_error)
}

impl Cesium3DTilesetOptions {
    /// Builds the option object for the engine's tileset constructor.
    pub fn to_js_value(&self) -> (r: PropertyBag)
        ensures
            r@ == tileset_options_model(*self),
    {
        let mut bag = PropertyBag::new();
        if let Some(n) = self.cache_bytes {
            bag.push_uint("cacheBytes", n);
        }
        if let Some(n) = self.maximum_cache_overflow_bytes {
            bag.push_uint("maximumCacheOverflowBytes", n);
        }
        if let Some(b) = self.enable_collision {
            bag.push_bool("enableCollision", b);
        }
        if let Some(h) = self.maximum_screen_space_error {
            bag.push_raw("maximumScreenSpaceError", h);
        }
        bag
    }
}

/// What the host shell must do after a tileset effect tick that saw the
/// viewer: call the tileset provider's creation API with these two option
/// objects.
#[derive(Clone, PartialEq, Eq, Debug)]
pub struct CreateTileset {
    pub api_options: PropertyBag,
    pub tileset_options: PropertyBag,
}

/// The photorealistic 3D tiles component: its inputs and whether it is
/// still mounted.
#[derive(Clone, PartialEq, Eq, Debug)]
pub struct GooglePhotorealistic3DTiles {
    pub google_api_key: Option<String>,
    pub cache_bytes: Option<u32>,
    pub maximum_cache_overflow_bytes: Option<u32>,
    pub enable_collision: Option<bool>,
    /// Whether the component has unmounted; set by [`Self::unmount`], after
    /// which effects and load completions do nothing.
    pub unmounted: bool,
}

/// The constructor defaults the component starts from.
pub open spec fn default_tileset_options() -> Cesium3DTilesetOptions {
    Cesium3DTilesetOptions {
        cache_bytes: Some(1610612736u32),
        maximum_cache_overflow_bytes: Some(1073741824u32),
        enable_collision: Some(true),
        maximum_screen_space_error: None,
    }
}

/// The tileset constructor options this component asks for: the defaults,
/// with each given input overriding its field.
pub open spec fn tiles_component_options(g: GooglePhotorealistic3DTiles, d: Cesium3DTilesetOptions) -> Cesium3DTilesetOptions {
    Cesium3DTilesetOptions {
        cache_bytes: if g.cache_bytes is Some {
            g.cache_bytes
        } else {
            d.cache_bytes
        },
        maximum_cache_overflow_bytes: if g.maximum_cache_overflow_bytes is Some {
            g.maximum_cache_overflow_bytes
        } else {
            d.maximum_cache_overflow_bytes
        },
        enable_collision: if g.enable_collision is Some {
            g.enable_collision
        } else {
            d.enable_collision
        },
        maximum_screen_space_error: d.maximum_screen_space_error,
    }
}

impl GooglePhotorealistic3DTiles {
    /// A freshly mounted component with every input left to its default.
    pub fn new() -> (r: Self)
        ensures
            r.google_api_key is None,
            r.cache_bytes is None,
            r.maximum_cache_overflow_bytes is None,
            r.enable_collision is None,
            !r.unmounted,
    {
        GooglePhotorealistic3DTiles {
            google_api_key: None,
            cache_bytes: None,
            maximum_cache_overflow_bytes: None,
            enable_collision: None,
            unmounted: false,
        }
    }

    /// One effect tick: while the component is mounted and the viewer is
    /// observable on this thread, the host shell must start loading the
    /// tileset with the built API options — carrying this component's
    /// service key, if any — and the built constructor options — the
    /// defaults overridden by this component's given inputs.
    pub fn effect(&self, ctx: &CesiumViewerContext, current: ThreadToken) -> (cmd: Option<
        CreateTileset,
    >)
        ensures
            cmd is Some <==> !self.unmounted && slot_read(ctx@.viewer, current) is Some,
            cmd matches Some(c) ==> {
                &&& c.api_options@ == api_options_model(
                    GooglePhotorealistic3DTilesApiOptions {
                        key: self.google_api_key,
                        only_using_with_google_geocoder: true,
                    },
                )
                &&& c.tileset_options@ == tileset_options_model(
                    tiles_component_options(*self, default_tileset_options()),
                )
            },
    {
        if self.unmounted || ctx.viewer_untracked(current).is_none() {
            return None;
        }
        let mut api_options = GooglePhotorealistic3DTilesApiOptions::default();
        if let Some(k) = &self.google_api_key {
            api_options.key = Some(k.clone());
        }
        let mut tileset_options = Cesium3DTilesetOptions::default();
        proof {
            assert(tileset_options == default_tileset_options());
        }
        if let Some(n) = self.cache_bytes {
            tileset_options.cache_bytes = Some(n);
        }
        if let Some(n) = self.maximum_cache_overflow_bytes {
            tileset_options.maximum_cache_overflow_bytes = Some(n);
        }
        if let Some(b) = self.enable_collision {
            tileset_options.enable_collision = Some(b);
        }
        let cmd = CreateTileset {
            api_options: api_options.to_js_value(),
            tileset_options: tileset_options.to_js_value(),
        };
        Some(cmd)
    }

    /// The completion decision for a load this component started: when the
    /// tileset loaded, the component is still mounted, and the viewer is
    /// still observable on this thread, the host shell must add the tileset
    /// to that viewer's scene primitives. In every other case — a failed
    /// load, a component that unmounted while the load was in flight, or a
    /// viewer that has since gone away — nothing is touched.
    pub fn load_complete(
        &self,
        ctx: &CesiumViewerContext,
        current: ThreadToken,
        tileset: Option<JsHandle>,
    ) -> (add: Option<(JsHandle, JsHandle)>)
        ensures
            add == (if self.unmounted {
                None::<(JsHandle, JsHandle)>
            } else {
                match (slot_read(ctx@.viewer, current), tileset) {
                    (Some(v), Some(t)) => Some((v, t)),
                    _ => None::<(JsHandle, JsHandle)>,
                }
            }),
    {
        if self.unmounted {
            return None;
        }
        match (ctx.viewer_untracked(current), tileset) {
            (Some(v), Some(t)) => Some((v, t)),
            _ => None,
        }
    }

    /// Unmount: while the viewer is observable on this thread, the host
    /// shell must remove all primitives from its scene. Afterwards this
    /// component's effects and load completions do nothing.
    pub fn unmount(&mut self, ctx: &CesiumViewerContext, current: ThreadToken) -> (clear: Option<
        JsHandle,
    >)
        ensures
            clear == slot_read(ctx@.viewer, current),
            final(self).unmounted,
            final(self).google_api_key == old(self).google_api_key,
            final(self).cache_bytes == old(self).cache_bytes,
            final(self).maximum_cache_overflow_bytes == old(self).maximum_cache_overflow_bytes,
            final(self).enable_collision == old(self).enable_collision,
    {
        self.unmounted = true;
        ctx.viewer_untracked(current)
    }
}

} // verus!
