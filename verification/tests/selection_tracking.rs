//! The selection slot and its version counter.

use leptos_cesium::context::CesiumViewerContext;
use leptos_cesium::handle::{JsHandle, ThreadToken};
use leptos_cesium::selection::SelectionSlot;

#[test]
fn version_counts_every_accepted_notification() {
    let owner = ThreadToken { id: 1 };
    let mut slot = SelectionSlot::new(owner);
    assert_eq!(slot.version(), 0);

    let applied = slot.notify(owner, Some(JsHandle { id: 5 }));
    assert!(applied);
    assert_eq!(slot.version(), 1);
    assert_eq!(slot.selected(owner), Some(JsHandle { id: 5 }));

    // Clearing the selection still advances the version.
    let applied = slot.notify(owner, None);
    assert!(applied);
    assert_eq!(slot.version(), 2);
    assert_eq!(slot.selected(owner), None);
}

#[test]
fn wrong_thread_notification_changes_nothing() {
    let owner = ThreadToken { id: 1 };
    let other = ThreadToken { id: 2 };
    let mut slot = SelectionSlot::new(owner);
    slot.notify(owner, Some(JsHandle { id: 5 }));

    let applied = slot.notify(other, Some(JsHandle { id: 6 }));
    assert!(!applied);
    assert_eq!(slot.version(), 1);
    assert_eq!(slot.selected(owner), Some(JsHandle { id: 5 }));
    assert_eq!(slot.selected(other), None);
}

#[test]
fn selection_events_present_then_absent() {
    // An engine selection notification with a concrete handle, then one
    // with no selection: the version counter advances exactly twice and the
    // slot reads back as present, then absent.
    let owner = ThreadToken { id: 1 };
    let mut ctx = CesiumViewerContext::new(owner);
    assert_eq!(ctx.selection_version(), 0);

    ctx.set_selected_entity(owner, Some(JsHandle { id: 11 }));
    assert_eq!(ctx.selection_version(), 1);
    assert_eq!(ctx.selected_entity(owner), Some(JsHandle { id: 11 }));

    ctx.set_selected_entity(owner, None);
    assert_eq!(ctx.selection_version(), 2);
    assert_eq!(ctx.selected_entity(owner), None);
}

#[test]
fn clearing_the_selection_advances_the_version() {
    let owner = ThreadToken { id: 1 };
    let mut ctx = CesiumViewerContext::new(owner);
    ctx.set_selected_entity(owner, Some(JsHandle { id: 11 }));
    ctx.clear_selected_entity(owner);
    assert_eq!(ctx.selection_version(), 2);
    assert_eq!(ctx.selected_entity(owner), None);
    assert_eq!(ctx.selected_entity_untracked(owner), None);
}
