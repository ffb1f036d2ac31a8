//! Capabilities as the vendor reports them: an instance name and a raw,
//! vendor-defined JSON state.

use vstd::prelude::*;

verus! {

/// `serde_json::Value`, an arbitrary JSON document. Nothing of its inside is
/// visible to proofs; it is read only through `Value::pointer` and
/// `Value::as_i64`.
#[verifier::external_type_specification]
#[verifier::external_body]
pub struct ExJsonValue(serde_json::Value);

/// The value that `serde_json::Value::pointer` finds in `state` under the
/// JSON pointer `pointer`, if there is one.
pub uninterp spec fn json_pointer(state: serde_json::Value, pointer: Seq<char>) -> Option<
    serde_json::Value,
>;

/// What `serde_json::Value::as_i64` makes of `value`: the integer it holds,
/// if it holds one that fits `i64`.
pub uninterp spec fn json_as_i64(value: serde_json::Value) -> Option<i64>;

/// `Clone` of `serde_json::Value` is derived: the copy is the same document.
pub assume_specification[ <serde_json::Value as Clone>::clone ](
    value: &serde_json::Value,
) -> (copy: serde_json::Value)
    ensures
        copy == *value,
;

/// Looks `pointer` up in `state`.
///
/// Trusted: the body is `serde_json::Value::pointer`, which walks the
/// reference tokens of the pointer through objects and arrays and returns the
/// addressed value, or `None` where there is none. It reads its arguments
/// only; the contract names its result.
#[verifier::external_body]
pub(crate) fn pointer_lookup<'a>(state: &'a serde_json::Value, pointer: &str) -> (found: Option<
    &'a serde_json::Value,
>)
    ensures
        found == match json_pointer(*state, pointer@) {
            Some(value) => Some(&value),
            None => None,
        },
{
    state.pointer(pointer)
}

/// Reads `value` as a signed integer.
///
/// Trusted: the body is `serde_json::Value::as_i64`, which returns the
/// integer of a JSON number that is an integer within the range of `i64`, and
/// `None` for anything else. The contract names its result.
#[verifier::external_body]
pub(crate) fn value_as_i64(value: &serde_json::Value) -> (number: Option<i64>)
    ensures
        number == json_as_i64(*value),
{
    value.as_i64()
}

/// The integer found in `state` under `pointer`: the addressed value read as
/// an `i64`, or `None` if the pointer addresses nothing or no such integer.
pub open spec fn integer_at(state: serde_json::Value, pointer: Seq<char>) -> Option<i64> {
    match json_pointer(state, pointer) {
        Some(value) => json_as_i64(value),
        None => None,
    }
}

/// One capability of a device: its instance name and its latest raw state.
#[derive(Debug, PartialEq, Eq)]
pub struct DeviceCapability {
    pub instance: String,
    pub state: serde_json::Value,
}

/// The mathematical model of a [`DeviceCapability`].
pub struct DeviceCapabilityView {
    pub instance: Seq<char>,
    pub state: serde_json::Value,
}

impl View for DeviceCapability {
    type V = DeviceCapabilityView;

    open spec fn view(&self) -> DeviceCapabilityView {
        DeviceCapabilityView { instance: self.instance@, state: self.state }
    }
}

impl DeviceCapability {
    /// A capability named `instance` whose raw state is `state`.
    pub fn new(instance: &str, state: serde_json::Value) -> (capability: Self)
        ensures
            capability@ == (DeviceCapabilityView { instance: instance@, state }),
    {
        DeviceCapability { instance: String::from_str(instance), state }
    }

    /// The integer that the raw state holds under the JSON pointer `pointer`.
    pub fn integer_at(&self, pointer: &str) -> (found: Option<i64>)
        ensures
            found == integer_at(self.state, pointer@),
    {
        match pointer_lookup(&self.state, pointer) {
            Some(value) => value_as_i64(value),
            None => None,
        }
    }
}

impl Clone for DeviceCapability {
    fn clone(&self) -> (copy: Self)
        ensures
            copy@ == self@,
    {
        DeviceCapability { instance: self.instance.clone(), state: self.state.clone() }
    }
}

} // verus!
