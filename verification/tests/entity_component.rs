//! The entity-declaring component: one add per mount, one matching remove
//! per unmount, and the option object passed through unmodified.

use leptos_cesium::bag::{PropValue, PropertyBag};
use leptos_cesium::context::CesiumViewerContext;
use leptos_cesium::entity::{Entity, EntityProps};
use leptos_cesium::handle::{JsHandle, ThreadToken};

fn active_context(owner: ThreadToken, viewer: JsHandle) -> CesiumViewerContext {
    let mut ctx = CesiumViewerContext::new(owner);
    ctx.set_viewer(owner, viewer);
    ctx
}

fn pairs(bag: &PropertyBag) -> Vec<(String, PropValue)> {
    bag.entries.iter().map(|e| (e.key.clone(), e.value.clone())).collect()
}

#[test]
fn entity_options_pass_inputs_through() {
    let props = EntityProps {
        name: Some("Base".to_string()),
        position: Some(JsHandle { id: 20 }),
        description: None,
        show: Some(false),
    };
    let owner = ThreadToken { id: 1 };
    let ctx = active_context(owner, JsHandle { id: 7 });
    let mut entity = Entity::new(owner, props);
    let add = entity.create_effect(&ctx, owner).expect("viewer present, so the entity is added");
    assert_eq!(add.viewer, JsHandle { id: 7 });
    assert_eq!(
        pairs(&add.options),
        vec![
            ("name".to_string(), PropValue::Text("Base".to_string())),
            ("position".to_string(), PropValue::Raw(JsHandle { id: 20 })),
            ("show".to_string(), PropValue::Bool(false)),
        ]
    );
}

#[test]
fn no_add_without_a_viewer() {
    let owner = ThreadToken { id: 1 };
    let ctx = CesiumViewerContext::new(owner);
    let mut entity = Entity::new(
        owner,
        EntityProps { name: None, position: None, description: None, show: None },
    );
    assert!(entity.create_effect(&ctx, owner).is_none());
}

#[test]
fn one_add_then_one_matching_remove() {
    let owner = ThreadToken { id: 1 };
    let ctx = active_context(owner, JsHandle { id: 7 });
    let mut entity = Entity::new(
        owner,
        EntityProps { name: None, position: None, description: None, show: None },
    );

    let add = entity.create_effect(&ctx, owner);
    assert!(add.is_some());

    // While the add is in flight, and after it lands, further ticks add
    // nothing.
    assert!(entity.create_effect(&ctx, owner).is_none());
    entity.store_entity(owner, JsHandle { id: 55 });
    assert!(entity.create_effect(&ctx, owner).is_none());
    assert_eq!(entity.context().entity(owner), Some(JsHandle { id: 55 }));

    // Unmount removes exactly the stored entity from exactly that viewer.
    let remove = entity.unmount(&ctx, owner);
    assert_eq!(remove, Some((JsHandle { id: 7 }, JsHandle { id: 55 })));
    assert_eq!(entity.context().entity(owner), None);

    // A second unmount has nothing left to remove.
    assert_eq!(entity.unmount(&ctx, owner), None);
}

#[test]
fn two_sibling_points_add_two_distinct_entities() {
    // Two sibling entity components at different positions and names: two
    // distinct add calls, with the two positions and the two names passed
    // through unmodified.
    let owner = ThreadToken { id: 1 };
    let ctx = active_context(owner, JsHandle { id: 7 });

    let mut first = Entity::new(
        owner,
        EntityProps {
            name: Some("north point".to_string()),
            position: Some(JsHandle { id: 201 }),
            description: None,
            show: None,
        },
    );
    let mut second = Entity::new(
        owner,
        EntityProps {
            name: Some("south point".to_string()),
            position: Some(JsHandle { id: 202 }),
            description: None,
            show: None,
        },
    );

    let add1 = first.create_effect(&ctx, owner).unwrap();
    let add2 = second.create_effect(&ctx, owner).unwrap();
    assert_eq!(add1.viewer, JsHandle { id: 7 });
    assert_eq!(add2.viewer, JsHandle { id: 7 });
    assert_ne!(add1.options, add2.options);
    assert_eq!(
        pairs(&add1.options),
        vec![
            ("name".to_string(), PropValue::Text("north point".to_string())),
            ("position".to_string(), PropValue::Raw(JsHandle { id: 201 })),
        ]
    );
    assert_eq!(
        pairs(&add2.options),
        vec![
            ("name".to_string(), PropValue::Text("south point".to_string())),
            ("position".to_string(), PropValue::Raw(JsHandle { id: 202 })),
        ]
    );

    // Each component stores its own handle and removes its own entity.
    first.store_entity(owner, JsHandle { id: 301 });
    second.store_entity(owner, JsHandle { id: 302 });
    assert_eq!(first.unmount(&ctx, owner), Some((JsHandle { id: 7 }, JsHandle { id: 301 })));
    assert_eq!(second.unmount(&ctx, owner), Some((JsHandle { id: 7 }, JsHandle { id: 302 })));
}

#[test]
fn entity_context_is_guarded() {
    let owner = ThreadToken { id: 1 };
    let other = ThreadToken { id: 2 };
    let ctx = active_context(owner, JsHandle { id: 7 });
    let mut entity = Entity::new(
        owner,
        EntityProps { name: None, position: None, description: None, show: None },
    );
    entity.create_effect(&ctx, owner);
    entity.store_entity(owner, JsHandle { id: 55 });
    assert_eq!(entity.context().entity(other), None);
    assert_eq!(entity.context().entity_untracked(owner), Some(JsHandle { id: 55 }));
    assert_eq!(entity.context().with_entity(owner, |h| h.id), Some(55));
    assert_eq!(entity.context().with_entity(other, |h| h.id), None);
}
