//! The thread-affinity guard on slots: wrong-thread reads are absent and
//! wrong-thread writes change nothing.

use leptos_cesium::handle::{JsHandle, ThreadToken};
use leptos_cesium::slot::GuardedSlot;

#[test]
fn fresh_slot_is_empty() {
    let owner = ThreadToken { id: 1 };
    let slot = GuardedSlot::new(owner);
    assert_eq!(slot.get(owner), None);
    assert_eq!(slot.owner(), owner);
}

#[test]
fn owner_thread_can_store_and_read() {
    let owner = ThreadToken { id: 1 };
    let mut slot = GuardedSlot::new(owner);
    let applied = slot.set(owner, JsHandle { id: 42 });
    assert!(applied);
    assert_eq!(slot.get(owner), Some(JsHandle { id: 42 }));
}

#[test]
fn wrong_thread_read_is_absent_even_when_populated() {
    let owner = ThreadToken { id: 1 };
    let other = ThreadToken { id: 2 };
    let mut slot = GuardedSlot::new(owner);
    slot.set(owner, JsHandle { id: 42 });
    assert_eq!(slot.get(other), None);
    assert_eq!(slot.get(owner), Some(JsHandle { id: 42 }));
}

#[test]
fn wrong_thread_write_preserves_prior_value() {
    let owner = ThreadToken { id: 1 };
    let other = ThreadToken { id: 2 };
    let mut slot = GuardedSlot::new(owner);
    let applied = slot.set(other, JsHandle { id: 7 });
    assert!(!applied);
    assert_eq!(slot.get(owner), None);

    slot.set(owner, JsHandle { id: 42 });
    let applied = slot.set(other, JsHandle { id: 7 });
    assert!(!applied);
    assert_eq!(slot.get(owner), Some(JsHandle { id: 42 }));
}

#[test]
fn wrong_thread_clear_is_ignored() {
    let owner = ThreadToken { id: 1 };
    let other = ThreadToken { id: 2 };
    let mut slot = GuardedSlot::new(owner);
    slot.set(owner, JsHandle { id: 42 });
    slot.clear(other);
    assert_eq!(slot.get(owner), Some(JsHandle { id: 42 }));
    slot.clear(owner);
    assert_eq!(slot.get(owner), None);
}

#[test]
fn wrong_thread_is_reported() {
    let owner = ThreadToken { id: 1 };
    let slot = GuardedSlot::new(owner);
    assert!(!slot.wrong_thread(owner));
    assert!(slot.wrong_thread(ThreadToken { id: 2 }));
}
