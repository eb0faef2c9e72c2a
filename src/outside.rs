use crate::json::JsonField;
use crate::responses::{PolicyVerdict, ProtocolVersion, SettingsValidationResponse};
use vstd::prelude::*;

verus! {

/// What `serde_json` finds under `key` in the document `doc`.
pub uninterp spec fn json_field_of(doc: Seq<u8>, key: Seq<char>) -> JsonField;

/// The document `doc` re-encoded by `serde_json` without the entry `key`.
pub uninterp spec fn json_without_of(doc: Seq<u8>, key: Seq<char>) -> Option<Seq<u8>>;

/// The `Debug` text of a byte vector.
pub uninterp spec fn debug_of(bytes: Seq<u8>) -> Seq<char>;

/// The upper-case mapping of `s` as Unicode defines it.
pub uninterp spec fn upper_of(s: Seq<char>) -> Seq<char>;

/// The guest verdict that the policy SDK decodes from `reply`, if it decodes.
pub uninterp spec fn verdict_of(reply: Seq<u8>) -> Option<PolicyVerdict>;

/// The settings verdict that the policy SDK decodes from `reply`, if it decodes.
pub uninterp spec fn settings_reply_of(reply: Seq<u8>) -> Option<SettingsValidationResponse>;

/// The protocol version that the policy SDK decodes from `reply`, if it decodes.
pub uninterp spec fn protocol_version_of(reply: Seq<u8>) -> Option<ProtocolVersion>;

/// Relies on `serde_json::from_slice` into a `serde_json::Value` and on
/// `serde_json::Map::get`: looks one key up in the top-level object.
#[verifier::external_body]
pub(crate) fn json_field(doc: &[u8], key: &str) -> (r: JsonField)
    ensures
        r == json_field_of(doc@, key@),
{
    match serde_json::from_slice::<serde_json::Value>(doc) {
        Ok(serde_json::Value::Object(m)) => match m.get(key) {
            None => JsonField::Absent,
            Some(serde_json::Value::Null) => JsonField::Null,
            Some(serde_json::Value::String(s)) => JsonField::Text(s.clone()),
            Some(_) => JsonField::Other,
        },
        _ => JsonField::Unreadable,
    }
}

/// Relies on `serde_json::from_slice`, `serde_json::Map::remove` and
/// `serde_json::to_vec`: the top-level object of `doc` without `key`. It is had
/// whenever `doc` is a JSON object (a map with string keys always serializes),
/// and it is itself a JSON object.
#[verifier::external_body]
pub(crate) fn json_without(doc: &[u8], key: &str) -> (r: Option<Vec<u8>>)
    ensures
        r is Some <==> json_without_of(doc@, key@) is Some,
        r is Some ==> json_without_of(doc@, key@) == Some(r->Some_0@),
        r is Some <==> !(json_field_of(doc@, key@) is Unreadable),
        r is Some ==> forall|k: Seq<char>| !(#[trigger] json_field_of(r->Some_0@, k) is Unreadable),
{
    match serde_json::from_slice::<serde_json::Value>(doc) {
        Ok(serde_json::Value::Object(mut m)) => {
            m.remove(key);
            serde_json::to_vec(&m).ok()
        },
        _ => None,
    }
}

/// Relies on the `Debug` impl of `Vec<u8>`: the text depends on the bytes alone.
#[verifier::external_body]
pub(crate) fn debug_text(bytes: &Vec<u8>) -> (r: String)
    ensures
        r@ == debug_of(bytes@),
{
    format!("{:?}", bytes)
}

/// Relies on `str::to_uppercase`: the result depends on the characters alone.
#[verifier::external_body]
pub(crate) fn to_upper(s: &str) -> (r: String)
    ensures
        r@ == upper_of(s@),
{
    s.to_uppercase()
}

/// Relies on `hyper::StatusCode::BAD_REQUEST`, whose number is 400.
#[verifier::external_body]
pub(crate) fn bad_request_code() -> (r: u16)
    ensures
        r == 400,
{
    hyper::StatusCode::BAD_REQUEST.as_u16()
}

/// Relies on `hyper::StatusCode::INTERNAL_SERVER_ERROR`, whose number is 500.
#[verifier::external_body]
pub(crate) fn internal_server_error_code() -> (r: u16)
    ensures
        r == 500,
{
    hyper::StatusCode::INTERNAL_SERVER_ERROR.as_u16()
}

/// Relies on `serde_json::from_slice` into the policy SDK's
/// `response::ValidationResponse`; the mutated object is carried as JSON text,
/// and the error is given in its `Debug` text.
#[verifier::external_body]
pub(crate) fn decode_verdict(reply: &[u8]) -> (r: Result<PolicyVerdict, String>)
    ensures
        r is Ok <==> verdict_of(reply@) is Some,
        r is Ok ==> verdict_of(reply@) == Some(r->Ok_0),
{
    serde_json::from_slice::<kubewarden_policy_sdk::response::ValidationResponse>(reply)
        .map(|v| PolicyVerdict {
            accepted: v.accepted,
            message: v.message,
            code: v.code,
            mutated_object: v.mutated_object.map(|o| o.to_string().into_bytes()),
        })
        .map_err(|e| format!("{:?}", e))
}

/// Relies on `serde_json::from_slice` into the policy SDK's
/// `settings::SettingsValidationResponse`; the error is given in its `Debug` text.
#[verifier::external_body]
pub(crate) fn decode_settings_reply(reply: &[u8]) -> (r: Result<SettingsValidationResponse, String>)
    ensures
        r is Ok <==> settings_reply_of(reply@) is Some,
        r is Ok ==> settings_reply_of(reply@) == Some(r->Ok_0),
{
    serde_json::from_slice::<kubewarden_policy_sdk::settings::SettingsValidationResponse>(reply)
        .map(|v| SettingsValidationResponse { valid: v.valid, message: v.message })
        .map_err(|e| format!("{:?}", e))
}

/// Relies on the policy SDK's `TryFrom<Vec<u8>>` for `metadata::ProtocolVersion`;
/// the error is given in its `Debug` text.
#[verifier::external_body]
pub(crate) fn decode_protocol_version(reply: Vec<u8>) -> (r: Result<ProtocolVersion, String>)
    ensures
        r is Ok <==> protocol_version_of(reply@) is Some,
        r is Ok ==> protocol_version_of(reply@) == Some(r->Ok_0),
{
    match kubewarden_policy_sdk::metadata::ProtocolVersion::try_from(reply) {
        Ok(kubewarden_policy_sdk::metadata::ProtocolVersion::Unknown) => Ok(ProtocolVersion::Unknown),
        Ok(kubewarden_policy_sdk::metadata::ProtocolVersion::V1) => Ok(ProtocolVersion::V1),
        Err(e) => Err(format!("{:?}", e)),
    }
}

} // verus!
