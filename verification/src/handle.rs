//! Opaque tokens for values this crate does not own: handles to objects that
//! live inside the foreign rendering engine, and identity tokens for the
//! executor threads of the host UI runtime.

use vstd::prelude::*;

verus! {

/// Identity of one logical executor thread of the host runtime.
///
/// The crate never inspects a thread; it only compares the identity of the
/// thread performing an access against the identity captured when a context
/// was created.
#[derive(Clone, Copy, PartialEq, Eq, Structural, Debug)]
pub struct ThreadToken {
    pub id: u64,
}

/// Opaque reference to a value owned by the foreign rendering engine (a
/// viewer, an entity, a color, a position, ...).
///
/// The crate never looks inside such a value; it only stores handles, passes
/// them through option objects, and hands them back to the host shell, which
/// resolves them to the engine's real objects. Copying a handle duplicates
/// the reference, not the engine object.
#[derive(Clone, Copy, PartialEq, Eq, Structural, Debug)]
pub struct JsHandle {
    pub id: u64,
}

} // verus!
