//! Global engine configuration: the module base URL and the default access
//! token.

use leptos_cesium::globals::{set_base_url, set_ion_default_access_token, BaseUrlAction};
use leptos_cesium::handle::JsHandle;

fn h(id: u64) -> JsHandle {
    JsHandle { id }
}

#[test]
fn base_url_warns_at_each_missing_step() {
    assert_eq!(
        set_base_url(None, None, None, false, "assets/engine/"),
        BaseUrlAction::WarnEngineUnavailable
    );
    assert_eq!(
        set_base_url(Some(h(1)), None, None, false, "assets/engine/"),
        BaseUrlAction::WarnBuilderMissing
    );
    assert_eq!(
        set_base_url(Some(h(1)), Some(h(2)), None, false, "assets/engine/"),
        BaseUrlAction::WarnSetterMissing
    );
    assert_eq!(
        set_base_url(Some(h(1)), Some(h(2)), Some(h(3)), false, "assets/engine/"),
        BaseUrlAction::WarnSetterNotCallable
    );
}

#[test]
fn base_url_calls_the_setter_when_the_chain_resolves() {
    let action = set_base_url(Some(h(1)), Some(h(2)), Some(h(3)), true, "assets/engine/");
    assert_eq!(
        action,
        BaseUrlAction::Call { builder: h(2), setter: h(3), url: "assets/engine/".to_string() }
    );
}

#[test]
fn access_token_written_only_when_the_service_is_found() {
    assert_eq!(set_ion_default_access_token(None, None, "sample-access-token"), None);
    assert_eq!(set_ion_default_access_token(Some(h(1)), None, "sample-access-token"), None);
    assert_eq!(set_ion_default_access_token(None, Some(h(2)), "sample-access-token"), None);
    assert_eq!(
        set_ion_default_access_token(Some(h(1)), Some(h(2)), "sample-access-token"),
        Some((h(2), "sample-access-token".to_string()))
    );
}
