//! Material option builders, and the photorealistic 3D tiles component.

use leptos_cesium::bag::{PropValue, PropertyBag};
use leptos_cesium::context::CesiumViewerContext;
use leptos_cesium::handle::{JsHandle, ThreadToken};
use leptos_cesium::materials::{
    CheckerboardOptions, Material, PolylineGlowOptions, StripeOptions,
};
use leptos_cesium::tileset::{
    Cesium3DTilesetOptions, GooglePhotorealistic3DTiles, GooglePhotorealistic3DTilesApiOptions,
};

fn h(id: u64) -> JsHandle {
    JsHandle { id }
}

fn active_context(owner: ThreadToken, viewer: JsHandle) -> CesiumViewerContext {
    let mut ctx = CesiumViewerContext::new(owner);
    ctx.set_viewer(owner, viewer);
    ctx
}

fn pairs(bag: &PropertyBag) -> Vec<(String, PropValue)> {
    bag.entries.iter().map(|e| (e.key.clone(), e.value.clone())).collect()
}

#[test]
fn material_hands_out_its_handle() {
    assert_eq!(Material::color(h(1)).to_js_value(), h(1));
    assert_eq!(Material::stripe(h(2)).to_js_value(), h(2));
    assert_eq!(Material::polyline_glow(h(3)).to_js_value(), h(3));
    assert_eq!(Material::checkerboard(h(4)).to_js_value(), h(4));
}

#[test]
fn stripe_options_build() {
    let bag = StripeOptions::new().even_color(h(1)).odd_color(h(2)).repeat(h(3)).offset(h(4)).build();
    assert_eq!(
        pairs(&bag),
        vec![
            ("evenColor".to_string(), PropValue::Raw(h(1))),
            ("oddColor".to_string(), PropValue::Raw(h(2))),
            ("repeat".to_string(), PropValue::Raw(h(3))),
            ("offset".to_string(), PropValue::Raw(h(4))),
        ]
    );
    assert!(StripeOptions::new().build().entries.is_empty());
}

#[test]
fn checkerboard_options_build() {
    let bag = CheckerboardOptions::new().even_color(h(1)).odd_color(h(2)).repeat(h(3)).build();
    assert_eq!(
        pairs(&bag),
        vec![
            ("evenColor".to_string(), PropValue::Raw(h(1))),
            ("oddColor".to_string(), PropValue::Raw(h(2))),
            ("repeat".to_string(), PropValue::Raw(h(3))),
        ]
    );
}

#[test]
fn polyline_glow_options_build() {
    let bag = PolylineGlowOptions::new().color(h(1)).glow_power(h(2)).taper_power(h(3)).build();
    assert_eq!(
        pairs(&bag),
        vec![
            ("color".to_string(), PropValue::Raw(h(1))),
            ("glowPower".to_string(), PropValue::Raw(h(2))),
            ("taperPower".to_string(), PropValue::Raw(h(3))),
        ]
    );
}

#[test]
fn api_options_confirm_the_geocoder() {
    let bag = GooglePhotorealistic3DTilesApiOptions::default().to_js_value();
    assert_eq!(
        pairs(&bag),
        vec![("onlyUsingWithGoogleGeocoder".to_string(), PropValue::Bool(true))]
    );
    let with_key = GooglePhotorealistic3DTilesApiOptions {
        key: Some("sample-access-token".to_string()),
        only_using_with_google_geocoder: true,
    };
    assert_eq!(
        pairs(&with_key.to_js_value()),
        vec![
            ("key".to_string(), PropValue::Text("sample-access-token".to_string())),
            ("onlyUsingWithGoogleGeocoder".to_string(), PropValue::Bool(true)),
        ]
    );
}

#[test]
fn tileset_options_defaults() {
    let bag = Cesium3DTilesetOptions::default().to_js_value();
    assert_eq!(
        pairs(&bag),
        vec![
            ("cacheBytes".to_string(), PropValue::Uint(1536 * 1024 * 1024)),
            ("maximumCacheOverflowBytes".to_string(), PropValue::Uint(1024 * 1024 * 1024)),
            ("enableCollision".to_string(), PropValue::Bool(true)),
        ]
    );
}

#[test]
fn tiles_component_overrides_defaults() {
    let owner = ThreadToken { id: 1 };
    let ctx = active_context(owner, h(7));
    let mut component = GooglePhotorealistic3DTiles::new();
    component.cache_bytes = Some(1024);
    component.enable_collision = Some(false);
    let cmd = component.effect(&ctx, owner).expect("viewer present");
    assert_eq!(
        pairs(&cmd.tileset_options),
        vec![
            ("cacheBytes".to_string(), PropValue::Uint(1024)),
            ("maximumCacheOverflowBytes".to_string(), PropValue::Uint(1024 * 1024 * 1024)),
            ("enableCollision".to_string(), PropValue::Bool(false)),
        ]
    );
    assert_eq!(
        pairs(&cmd.api_options),
        vec![("onlyUsingWithGoogleGeocoder".to_string(), PropValue::Bool(true))]
    );
}

#[test]
fn tiles_component_is_guarded() {
    let owner = ThreadToken { id: 1 };
    let mut component = GooglePhotorealistic3DTiles::new();
    let empty = CesiumViewerContext::new(owner);
    assert!(component.effect(&empty, owner).is_none());
    assert_eq!(component.load_complete(&empty, owner, Some(h(9))), None);
    assert_eq!(component.unmount(&empty, owner), None);

    let ctx = active_context(owner, h(7));
    let mut mounted = GooglePhotorealistic3DTiles::new();
    assert_eq!(mounted.load_complete(&ctx, owner, Some(h(9))), Some((h(7), h(9))));
    assert_eq!(mounted.load_complete(&ctx, owner, None), None);
    assert_eq!(mounted.unmount(&ctx, owner), Some(h(7)));

    // Unmounted while a load was in flight: the late tileset is not added,
    // even though the viewer still lives.
    assert_eq!(mounted.load_complete(&ctx, owner, Some(h(9))), None);
    assert!(mounted.effect(&ctx, owner).is_none());
}
