//! JSON values, as `serde_json` holds them.

use vstd::prelude::*;

verus! {

/// `serde_json::Value`: a JSON value, carried through unread.
#[verifier::external_type_specification]
#[verifier::external_body]
pub struct ExValue(serde_json::Value);

/// `serde_json::Map`: the members of a JSON object.
#[verifier::external_type_specification]
#[verifier::external_body]
#[verifier::reject_recursive_types(K)]
#[verifier::reject_recursive_types(V)]
pub struct ExMap<K, V>(serde_json::Map<K, V>);

/// The members of a JSON value, where it is an object.
pub uninterp spec fn members(value: serde_json::Value) -> Option<
    serde_json::Map<String, serde_json::Value>,
>;

/// The compact JSON text of a value.
pub uninterp spec fn compact_text(value: serde_json::Value) -> Seq<char>;

/// `Clone` of `serde_json::Value` makes the same value again.
pub assume_specification[ <serde_json::Value as Clone>::clone ](value: &serde_json::Value) -> (res:
    serde_json::Value)
    ensures
        res == *value,
;

/// `serde_json::Value::as_object` borrows the members of an object, and yields
/// nothing for any other value.
pub assume_specification[ serde_json::Value::as_object ](value: &serde_json::Value) -> (res: Option<
    &serde_json::Map<String, serde_json::Value>,
>)
    ensures
        match res {
            Some(m) => members(*value) == Some(*m),
            None => members(*value) is None,
        },
;

/// Calls `Display` of `serde_json::Value`, which writes compact JSON.
#[verifier::external_body]
pub(crate) fn write_compact(value: &serde_json::Value) -> (res: String)
    ensures
        res@ == compact_text(*value),
{
    value.to_string()
}

} // verus!
