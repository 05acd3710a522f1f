use vstd::prelude::*;

verus! {

/// A JSON document. The library carries documents through without looking
/// inside them.
pub type JsonValue = serde_json::Value;

/// A JSON object: the query parameters of a request.
pub type JsonObject = serde_json::Map<String, serde_json::Value>;

#[verifier::external_type_specification]
#[verifier::external_body]
pub struct ExJsonValue(serde_json::Value);

#[verifier::external_type_specification]
#[verifier::external_body]
#[verifier::reject_recursive_types(K)]
#[verifier::reject_recursive_types(V)]
pub struct ExJsonMap<K, V>(serde_json::Map<K, V>);

} // verus!
