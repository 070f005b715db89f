use vstd::prelude::*;

verus! {

/// The JSON text that a YAML document re-encodes to, or `None` where the text
/// is not YAML that maps onto JSON.
pub uninterp spec fn json_of_yaml(s: Seq<char>) -> Option<Seq<char>>;

/// Relies on serde_yaml::from_str (YAML text to a serde_yaml::Value tree),
/// serde_json::to_value (that tree to a serde_json::Value) and that value's
/// compact JSON text: the outcome depends on the text alone. A failure of
/// either conversion is reported by its message.
#[verifier::external_body]
pub(crate) fn yaml_to_json(s: &str) -> (r: Result<String, String>)
    ensures
        match r {
            Ok(j) => json_of_yaml(s@) == Some(j@),
            Err(_) => json_of_yaml(s@) is None,
        },
{
    let value: serde_yaml::Value = serde_yaml::from_str(s).map_err(|e| e.to_string())?;
    let json = serde_json::to_value(&value).map_err(|e| e.to_string())?;
    Ok(json.to_string())
}

} // verus!
