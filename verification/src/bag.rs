//! Plain key/value option objects ("property bags").
//!
//! Every foreign constructor and mutator of the rendering engine takes a
//! plain object whose fields are set one by one. A [`PropertyBag`] records
//! exactly that: the ordered sequence of key/value assignments a component
//! performs, with foreign values carried through as opaque handles. The host
//! shell replays the sequence onto a real object of the foreign runtime, so
//! a later assignment to the same key overwrites an earlier one there, just
//! as it does on the real object.

use vstd::prelude::*;

use vstd::string::StringExecFns;

use crate::handle::JsHandle;

verus! {

/// One field of a nested option object whose value is a foreign handle.
#[derive(Clone, PartialEq, Eq, Debug)]
pub struct RawEntry {
    pub key: String,
    pub value: JsHandle,
}

impl View for RawEntry {
    type V = (Seq<char>, JsHandle);

    open spec fn view(&self) -> (Seq<char>, JsHandle) {
        (self.key@, self.value)
    }
}

/// A value assigned to a field of an option object.
#[derive(Clone, PartialEq, Eq, Debug)]
pub enum PropValue {
    /// A plain boolean, passed as a foreign boolean.
    Bool(bool),
    /// A plain string, passed as a foreign string.
    Text(String),
    /// A plain unsigned integer, passed as a foreign number.
    Uint(u32),
    /// An opaque foreign value (a color, a position, a number, ...), passed
    /// through unmodified.
    Raw(JsHandle),
    /// A nested option object whose fields are all foreign handles.
    Object(Vec<RawEntry>),
}

/// Mathematical content of a [`PropValue`].
pub enum PropVal {
    Bool(bool),
    Text(Seq<char>),
    Uint(u32),
    Raw(JsHandle),
    Object(Seq<(Seq<char>, JsHandle)>),
}

impl View for PropValue {
    type V = PropVal;

    open spec fn view(&self) -> PropVal {
        match self {
            PropValue::Bool(b) => PropVal::Bool(*b),
            PropValue::Text(s) => PropVal::Text(s@),
            PropValue::Uint(n) => PropVal::Uint(*n),
            PropValue::Raw(h) => PropVal::Raw(*h),
            PropValue::Object(entries) => PropVal::Object(
                entries@.map_values(|e: RawEntry| e@),
            ),
        }
    }
}

/// One key/value assignment of an option object.
#[derive(Clone, PartialEq, Eq, Debug)]
pub struct PropEntry {
    pub key: String,
    pub value: PropValue,
}

impl View for PropEntry {
    type V = (Seq<char>, PropVal);

    open spec fn view(&self) -> (Seq<char>, PropVal) {
        (self.key@, self.value@)
    }
}

/// An option object under construction: the ordered key/value assignments a
/// component hands to a foreign constructor or mutator.
#[derive(Clone, PartialEq, Eq, Debug)]
pub struct PropertyBag {
    pub entries: Vec<PropEntry>,
}

impl View for PropertyBag {
    type V = Seq<(Seq<char>, PropVal)>;

    open spec fn view(&self) -> Seq<(Seq<char>, PropVal)> {
        self.entries@.map_values(|e: PropEntry| e@)
    }
}

/// The single assignment of `v` to `key`.
pub open spec fn bag_entry(key: Seq<char>, v: PropVal) -> Seq<(Seq<char>, PropVal)> {
    seq![(key, v)]
}

/// The assignment of a boolean to `key` when one is given, and nothing
/// otherwise.
pub open spec fn bag_opt_bool(key: Seq<char>, v: Option<bool>) -> Seq<(Seq<char>, PropVal)> {
    match v {
        Some(b) => seq![(key, PropVal::Bool(b))],
        None => seq![],
    }
}

/// The assignment of a string to `key` when one is given, and nothing
/// otherwise.
pub open spec fn bag_opt_text(key: Seq<char>, v: Option<Seq<char>>) -> Seq<(Seq<char>, PropVal)> {
    match v {
        Some(s) => seq![(key, PropVal::Text(s))],
        None => seq![],
    }
}

/// The views of an optional string.
pub open spec fn opt_text_view(o: Option<String>) -> Option<Seq<char>> {
    match o {
        Some(s) => Some(s@),
        None => None,
    }
}

/// The assignment of an unsigned integer to `key` when one is given, and
/// nothing otherwise.
pub open spec fn bag_opt_uint(key: Seq<char>, v: Option<u32>) -> Seq<(Seq<char>, PropVal)> {
    match v {
        Some(n) => seq![(key, PropVal::Uint(n))],
        None => seq![],
    }
}

/// The assignment of a foreign handle to `key` when one is given, and
/// nothing otherwise.
pub open spec fn bag_opt_raw(key: Seq<char>, v: Option<JsHandle>) -> Seq<(Seq<char>, PropVal)> {
    match v {
        Some(h) => seq![(key, PropVal::Raw(h))],
        None => seq![],
    }
}

impl PropertyBag {
    /// An option object with no fields assigned yet.
    pub fn new() -> (r: Self)
        ensures
            r@ == Seq::<(Seq<char>, PropVal)>::empty(),
    {
        PropertyBag { entries: Vec::new() }
    }

    /// Assigns the boolean `v` to `key`.
    pub fn push_bool(&mut self, key: &str, v: bool)
        ensures
            final(self)@ == old(self)@ + bag_entry(key@, PropVal::Bool(v)),
    {
        let entry = PropEntry { key: String::from_str(key), value: PropValue::Bool(v) };
        self.entries.push(entry);
        proof {
            assert(self@ =~= old(self)@ + bag_entry(key@, PropVal::Bool(v)));
        }
    }

    /// Assigns the string `v` to `key`.
    pub fn push_text(&mut self, key: &str, v: String)
        ensures
            final(self)@ == old(self)@ + bag_entry(key@, PropVal::Text(v@)),
    {
        let entry = PropEntry { key: String::from_str(key), value: PropValue::Text(v) };
        self.entries.push(entry);
        proof {
            assert(self@ =~= old(self)@ + bag_entry(key@, PropVal::Text(v@)));
        }
    }

    /// Assigns the unsigned integer `v` to `key`.
    pub fn push_uint(&mut self, key: &str, v: u32)
        ensures
            final(self)@ == old(self)@ + bag_entry(key@, PropVal::Uint(v)),
    {
        let entry = PropEntry { key: String::from_str(key), value: PropValue::Uint(v) };
        self.entries.push(entry);
        proof {
            assert(self@ =~= old(self)@ + bag_entry(key@, PropVal::Uint(v)));
        }
    }

    /// Assigns the foreign handle `v` to `key`.
    pub fn push_raw(&mut self, key: &str, v: JsHandle)
        ensures
            final(self)@ == old(self)@ + bag_entry(key@, PropVal::Raw(v)),
    {
        let entry = PropEntry { key: String::from_str(key), value: PropValue::Raw(v) };
        self.entries.push(entry);
        proof {
            assert(self@ =~= old(self)@ + bag_entry(key@, PropVal::Raw(v)));
        }
    }

    /// Assigns the nested object `v` to `key`.
    pub fn push_object(&mut self, key: &str, v: Vec<RawEntry>)
        ensures
            final(self)@ == old(self)@ + bag_entry(
                key@,
                PropVal::Object(v@.map_values(|e: RawEntry| e@)),
            ),
    {
        let entry = PropEntry { key: String::from_str(key), value: PropValue::Object(v) };
        self.entries.push(entry);
        proof {
            assert(self@ =~= old(self)@ + bag_entry(
                key@,
                PropVal::Object(v@.map_values(|e: RawEntry| e@)),
            ));
        }
    }
}

} // verus!
