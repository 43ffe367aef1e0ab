//! The viewer container's lifecycle: idempotent attach, exactly-once
//! destroy, the listener attached once, and the viewer option object.

use leptos_cesium::bag::{PropValue, PropertyBag};
use leptos_cesium::container::{ContainerProps, ViewerContainer};
use leptos_cesium::context::CesiumViewerContext;
use leptos_cesium::handle::{JsHandle, ThreadToken};

fn keys(bag: &PropertyBag) -> Vec<String> {
    bag.entries.iter().map(|e| e.key.clone()).collect()
}

#[test]
fn viewer_options_carry_every_toggle() {
    let props = ContainerProps {
        ion_token: None,
        animation: true,
        timeline: false,
        base_layer_picker: true,
        home_button: false,
        scene_mode_picker: true,
        navigation_help_button: false,
        fullscreen_button: true,
        info_box: false,
        selection_indicator: true,
        should_animate: false,
    };
    let owner = ThreadToken { id: 1 };
    let ctx = CesiumViewerContext::new(owner);
    let mut container = ViewerContainer::new(props);
    let cmd = container
        .create_effect(&ctx, owner, Some(JsHandle { id: 100 }))
        .expect("a fresh container with a surface must construct the viewer");
    assert_eq!(cmd.surface, JsHandle { id: 100 });
    assert_eq!(cmd.set_token, None);
    assert_eq!(
        keys(&cmd.options),
        vec![
            "animation",
            "timeline",
            "baseLayerPicker",
            "homeButton",
            "sceneModePicker",
            "navigationHelpButton",
            "fullscreenButton",
            "infoBox",
            "selectionIndicator",
            "shouldAnimate",
        ]
    );
    let values: Vec<PropValue> = cmd.options.entries.iter().map(|e| e.value.clone()).collect();
    assert_eq!(
        values,
        vec![
            PropValue::Bool(true),
            PropValue::Bool(false),
            PropValue::Bool(true),
            PropValue::Bool(false),
            PropValue::Bool(true),
            PropValue::Bool(false),
            PropValue::Bool(true),
            PropValue::Bool(false),
            PropValue::Bool(true),
            PropValue::Bool(false),
        ]
    );
}

#[test]
fn access_token_is_passed_through() {
    let props = ContainerProps { ion_token: Some("sample-access-token".to_string()), ..ContainerProps::default() };
    let owner = ThreadToken { id: 1 };
    let ctx = CesiumViewerContext::new(owner);
    let mut container = ViewerContainer::new(props);
    let cmd = container.create_effect(&ctx, owner, Some(JsHandle { id: 100 })).unwrap();
    assert_eq!(cmd.set_token.as_deref(), Some("sample-access-token"));
}

#[test]
fn attach_is_idempotent_while_populated() {
    let owner = ThreadToken { id: 1 };
    let mut ctx = CesiumViewerContext::new(owner);
    let mut container = ViewerContainer::new(ContainerProps::default());

    // No surface yet: nothing to do.
    assert!(container.create_effect(&ctx, owner, None).is_none());

    // Surface available: exactly one construction command.
    let cmd = container.create_effect(&ctx, owner, Some(JsHandle { id: 100 }));
    assert!(cmd.is_some());

    // While the construction is in flight, further ticks do nothing.
    assert!(container.create_effect(&ctx, owner, Some(JsHandle { id: 100 })).is_none());

    container.store_viewer(&mut ctx, owner, JsHandle { id: 7 });
    assert_eq!(ctx.viewer(owner), Some(JsHandle { id: 7 }));

    // While the slot is populated, any number of further ticks construct
    // nothing.
    for _ in 0..5 {
        assert!(container.create_effect(&ctx, owner, Some(JsHandle { id: 100 })).is_none());
    }
}

#[test]
fn unmount_destroys_exactly_once_iff_stored() {
    let owner = ThreadToken { id: 1 };

    // A handle was stored: unmount surrenders it once and empties the slot.
    let mut ctx = CesiumViewerContext::new(owner);
    let mut container = ViewerContainer::new(ContainerProps::default());
    container.create_effect(&ctx, owner, Some(JsHandle { id: 100 }));
    container.store_viewer(&mut ctx, owner, JsHandle { id: 7 });
    let destroy = container.unmount(&mut ctx, owner);
    assert_eq!(destroy, Some(JsHandle { id: 7 }));
    assert_eq!(ctx.viewer(owner), None);

    // A second unmount has nothing left to destroy.
    assert_eq!(container.unmount(&mut ctx, owner), None);

    // No handle was ever stored: unmount destroys nothing.
    let mut ctx2 = CesiumViewerContext::new(owner);
    let mut container2 = ViewerContainer::new(ContainerProps::default());
    container2.create_effect(&ctx2, owner, None);
    assert_eq!(container2.unmount(&mut ctx2, owner), None);
}

#[test]
fn no_construction_after_unmount() {
    let owner = ThreadToken { id: 1 };
    let mut ctx = CesiumViewerContext::new(owner);
    let mut container = ViewerContainer::new(ContainerProps::default());
    container.unmount(&mut ctx, owner);
    assert!(container.create_effect(&ctx, owner, Some(JsHandle { id: 100 })).is_none());
}

#[test]
fn selection_listener_attaches_once_per_active_period() {
    let owner = ThreadToken { id: 1 };
    let mut ctx = CesiumViewerContext::new(owner);
    let mut container = ViewerContainer::new(ContainerProps::default());

    // Not active yet: nothing to attach.
    assert!(!container.listener_effect(&ctx, owner));

    container.create_effect(&ctx, owner, Some(JsHandle { id: 100 }));
    container.store_viewer(&mut ctx, owner, JsHandle { id: 7 });

    assert!(container.listener_effect(&ctx, owner));
    assert!(!container.listener_effect(&ctx, owner));
}

#[test]
fn globe_visibility_follows_the_input_while_active() {
    let owner = ThreadToken { id: 1 };
    let mut ctx = CesiumViewerContext::new(owner);
    let mut container = ViewerContainer::new(ContainerProps::default());
    assert_eq!(container.globe_effect(&ctx, owner, true), None);

    container.create_effect(&ctx, owner, Some(JsHandle { id: 100 }));
    container.store_viewer(&mut ctx, owner, JsHandle { id: 7 });
    assert_eq!(container.globe_effect(&ctx, owner, false), Some((JsHandle { id: 7 }, false)));
    assert_eq!(container.globe_effect(&ctx, owner, true), Some((JsHandle { id: 7 }, true)));
}

#[test]
fn viewer_accessors_are_guarded() {
    let owner = ThreadToken { id: 1 };
    let other = ThreadToken { id: 2 };
    let mut ctx = CesiumViewerContext::new(owner);
    let applied = ctx.set_viewer(owner, JsHandle { id: 7 });
    assert!(applied);
    assert_eq!(ctx.viewer(other), None);
    assert_eq!(ctx.viewer_untracked(owner), Some(JsHandle { id: 7 }));
    assert!(!ctx.set_viewer(other, JsHandle { id: 8 }));
    assert_eq!(ctx.viewer(owner), Some(JsHandle { id: 7 }));
    ctx.clear_viewer(other);
    assert_eq!(ctx.viewer(owner), Some(JsHandle { id: 7 }));
    ctx.clear_viewer(owner);
    assert_eq!(ctx.viewer(owner), None);
}

#[test]
fn with_viewer_maps_the_handle() {
    let owner = ThreadToken { id: 1 };
    let mut ctx = CesiumViewerContext::new(owner);
    assert_eq!(ctx.with_viewer(owner, |h| h.id), None);
    ctx.set_viewer(owner, JsHandle { id: 7 });
    assert_eq!(ctx.with_viewer(owner, |h| h.id), Some(7));
    assert_eq!(ctx.with_viewer(ThreadToken { id: 2 }, |h| h.id), None);
}
