//! Camera components and the camera option builders.

use leptos_cesium::bag::{PropValue, PropertyBag, RawEntry};
use leptos_cesium::camera::{
    CameraFlyHome, CameraFlyTo, CameraFlyToBoundingSphere, CameraSetView, ClockReset,
    FlyToOptions, HeadingPitchRoll, SetViewOptions,
};
use leptos_cesium::context::CesiumViewerContext;
use leptos_cesium::handle::{JsHandle, ThreadToken};

fn h(id: u64) -> JsHandle {
    JsHandle { id }
}

fn active_context(owner: ThreadToken, viewer: JsHandle) -> CesiumViewerContext {
    let mut ctx = CesiumViewerContext::new(owner);
    ctx.set_viewer(owner, viewer);
    ctx
}

fn pairs(bag: &PropertyBag) -> Vec<(String, PropValue)> {
    bag.entries.iter().map(|e| (e.key.clone(), e.value.clone())).collect()
}

fn orientation_object(o: &HeadingPitchRoll) -> PropValue {
    PropValue::Object(vec![
        RawEntry { key: "heading".to_string(), value: o.heading },
        RawEntry { key: "pitch".to_string(), value: o.pitch },
        RawEntry { key: "roll".to_string(), value: o.roll },
    ])
}

#[test]
fn fly_to_options_build_in_order() {
    let hpr = HeadingPitchRoll::new(h(11), h(12), h(13));
    let options = FlyToOptions::new(h(1))
        .orientation(hpr)
        .duration(h(2))
        .offset(h(3))
        .on_complete(h(4))
        .on_cancel(h(5));
    assert_eq!(
        pairs(&options.build()),
        vec![
            ("destination".to_string(), PropValue::Raw(h(1))),
            ("orientation".to_string(), orientation_object(&hpr)),
            ("duration".to_string(), PropValue::Raw(h(2))),
            ("offset".to_string(), PropValue::Raw(h(3))),
            ("complete".to_string(), PropValue::Raw(h(4))),
            ("cancel".to_string(), PropValue::Raw(h(5))),
        ]
    );
}

#[test]
fn fly_to_options_minimal() {
    let options = FlyToOptions::new(h(9));
    assert_eq!(pairs(&options.build()), vec![("destination".to_string(), PropValue::Raw(h(9)))]);
}

#[test]
fn set_view_options_build() {
    let hpr = HeadingPitchRoll::new(h(11), h(12), h(13));
    let options = SetViewOptions::new(h(1)).orientation(hpr);
    assert_eq!(
        pairs(&options.build()),
        vec![
            ("destination".to_string(), PropValue::Raw(h(1))),
            ("orientation".to_string(), orientation_object(&hpr)),
        ]
    );
}

#[test]
fn fly_home_needs_the_viewer() {
    let owner = ThreadToken { id: 1 };
    let component = CameraFlyHome { duration: h(2) };
    let empty = CesiumViewerContext::new(owner);
    assert_eq!(component.effect(&empty, owner), None);
    let ctx = active_context(owner, h(7));
    assert_eq!(component.effect(&ctx, owner), Some((h(7), h(2))));
}

#[test]
fn set_view_addresses_the_viewer() {
    let owner = ThreadToken { id: 1 };
    let ctx = active_context(owner, h(7));
    let component = CameraSetView { destination: h(1), orientation: None };
    let (viewer, bag) = component.effect(&ctx, owner).unwrap();
    assert_eq!(viewer, h(7));
    assert_eq!(pairs(&bag), vec![("destination".to_string(), PropValue::Raw(h(1)))]);
}

#[test]
fn fly_to_always_carries_its_duration() {
    let owner = ThreadToken { id: 1 };
    let ctx = active_context(owner, h(7));
    let component = CameraFlyTo {
        destination: h(1),
        orientation: None,
        duration: h(2),
        offset: Some(h(3)),
    };
    let (viewer, bag) = component.effect(&ctx, owner).unwrap();
    assert_eq!(viewer, h(7));
    assert_eq!(
        pairs(&bag),
        vec![
            ("destination".to_string(), PropValue::Raw(h(1))),
            ("duration".to_string(), PropValue::Raw(h(2))),
            ("offset".to_string(), PropValue::Raw(h(3))),
        ]
    );
}

#[test]
fn fly_to_bounding_sphere_passes_target_and_options() {
    let owner = ThreadToken { id: 1 };
    let ctx = active_context(owner, h(7));
    let component = CameraFlyToBoundingSphere { target: h(20), offset: Some(h(3)), duration: h(2) };
    let (viewer, target, bag) = component.effect(&ctx, owner).unwrap();
    assert_eq!(viewer, h(7));
    assert_eq!(target, h(20));
    assert_eq!(
        pairs(&bag),
        vec![
            ("duration".to_string(), PropValue::Raw(h(2))),
            ("offset".to_string(), PropValue::Raw(h(3))),
        ]
    );
}

#[test]
fn clock_reset_addresses_the_viewer() {
    let owner = ThreadToken { id: 1 };
    let component = ClockReset {};
    let empty = CesiumViewerContext::new(owner);
    assert_eq!(component.effect(&empty, owner), None);
    let ctx = active_context(owner, h(7));
    assert_eq!(component.effect(&ctx, owner), Some(h(7)));
}
