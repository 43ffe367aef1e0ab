//! Global engine configuration: the module base URL and the default access
//! token.
//!
//! Both settings live on the engine's global namespace object, which the
//! host shell discovers by a chain of fallible property lookups. The
//! decisions here take those lookup results and say exactly which foreign
//! call to make — or which warning to log when a step of the chain is
//! missing.

use vstd::prelude::*;
use vstd::string::StringExecFns;

use crate::handle::JsHandle;

verus! {

/// What a set-base-URL attempt asks the host shell to do.
#[derive(Clone, PartialEq, Eq, Debug)]
pub enum BaseUrlAction {
    /// The engine's global namespace object was not found: log a warning.
    WarnEngineUnavailable,
    /// The namespace has no module-URL builder: log a warning.
    WarnBuilderMissing,
    /// The builder has no base-URL setter: log a warning.
    WarnSetterMissing,
    /// The base-URL setter is not callable: log a warning.
    WarnSetterNotCallable,
    /// Call the setter on the builder with the base URL.
    Call { builder: JsHandle, setter: JsHandle, url: String },
}

/// Decides how to set the engine's module base URL, from the results of the
/// host shell's lookup chain: the global namespace object, its module-URL
/// builder, that builder's base-URL setter, and whether the setter turned
/// out to be callable.
pub fn set_base_url(
    engine: Option<JsHandle>,
    builder: Option<JsHandle>,
    setter: Option<JsHandle>,
    setter_callable: bool,
    base_url: &str,
) -> (action: BaseUrlAction)
    ensures
        engine is None ==> action is WarnEngineUnavailable,
        engine is Some && builder is None ==> action is WarnBuilderMissing,
        engine is Some && builder is Some && setter is None ==> action is WarnSetterMissing,
        engine is Some && builder is Some && setter is Some && !setter_callable ==> action
            is WarnSetterNotCallable,
        engine is Some && builder is Some && setter is Some && setter_callable ==> ({
            &&& action matches BaseUrlAction::Call { builder: b, setter: s, url }
            &&& Some(b) == builder
            &&& Some(s) == setter
            &&& url@ == base_url@
        }),
{
    if engine.is_none() {
        return BaseUrlAction::WarnEngineUnavailable;
    }
    let b = match builder {
        Some(b) => b,
        None => {
            return BaseUrlAction::WarnBuilderMissing;
        },
    };
    let s = match setter {
        Some(s) => s,
        None => {
            return BaseUrlAction::WarnSetterMissing;
        },
    };
    if !setter_callable {
        return BaseUrlAction::WarnSetterNotCallable;
    }
    BaseUrlAction::Call { builder: b, setter: s, url: String::from_str(base_url) }
}

/// Decides how to set the engine's default access token, from the results
/// of the host shell's lookup chain: the global namespace object and its
/// token service object. The token is written on the service exactly when
/// both were found; otherwise nothing happens.
pub fn set_ion_default_access_token(
    engine: Option<JsHandle>,
    ion: Option<JsHandle>,
    token: &str,
) -> (write: Option<(JsHandle, String)>)
    ensures
        write is Some <==> engine is Some && ion is Some,
        write matches Some((service, t)) ==> Some(service) == ion && t@ == token@,
{
    match (engine, ion) {
        (Some(_), Some(service)) => Some((service, String::from_str(token))),
        _ => None,
    }
}

} // verus!
