use vstd::prelude::*;

verus! {

/// serde_json's untyped JSON tree, carried through the notebook unread.
#[verifier::external_type_specification]
#[verifier::external_body]
pub struct ExValue(serde_json::Value);

/// serde_json's JSON object, used to keep the fields a notebook or a cell
/// carries beyond those the model names.
#[verifier::external_type_specification]
#[verifier::external_body]
#[verifier::reject_recursive_types(K)]
#[verifier::reject_recursive_types(V)]
pub struct ExMap<K, V>(serde_json::Map<K, V>);

} // verus!
