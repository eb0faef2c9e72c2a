use crate::context::{copy_bytes, Policy, PolicyRegistry};
use crate::json::{opt_text, JsonField};
use crate::outside::{
    bad_request_code, debug_of, debug_text, decode_protocol_version, decode_settings_reply, decode_verdict,
    internal_server_error_code, json_field, json_field_of, protocol_version_of, settings_reply_of,
    verdict_of,
};
use crate::responses::{PolicyVerdict, ProtocolVersion, SettingsValidationResponse};
use vstd::prelude::*;
use vstd::string::StringExecFns;

verus! {

/// A running sandbox instance of a policy module.
pub trait Sandbox {
    /// The opaque identity that the instance's callbacks carry.
    fn id(&self) -> u64;

    /// Invokes the exported function `function` with `payload`.
    fn call(&self, function: &str, payload: &[u8]) -> Result<Vec<u8>, String>;
}

/// One loaded policy: its sandbox instance and its host-side context.
pub struct PolicyEvaluator<S: Sandbox> {
    pub wapc_host: S,
    pub policy: Policy,
}

/// An admission request, as the JSON text it arrived in.
pub struct ValidateRequest(pub Vec<u8>);

/// The decision on one admission request.
#[derive(Debug, PartialEq, Eq)]
pub struct ValidationResponse {
    pub uid: String,
    pub allowed: bool,
    pub code: Option<u16>,
    pub message: Option<String>,
    /// The mutated object, as JSON text, for mutating policies.
    pub mutated_object: Option<Vec<u8>>,
}

/// The correlation id of a request: its `uid` where that is a string, else empty.
pub open spec fn request_uid_of(request: Seq<u8>) -> Seq<char> {
    match json_field_of(request, "uid"@) {
        JsonField::Text(s) => s@,
        _ => Seq::<char>::empty(),
    }
}

/// Whether a request carries an `object` field.
pub open spec fn has_object(request: Seq<u8>) -> bool {
    !(json_field_of(request, "object"@) is Absent || json_field_of(request, "object"@) is Unreadable)
}

// The frame of the `validate` payload is ASCII text; its bytes are written
// out by their codes: `{` 123, `"` 34, `:` 58, `,` 44, `}` 125, and the
// letters of `request` and `settings`.

/// Settings as sent to the guest: the configured object, or `{}`.
pub open spec fn settings_payload(settings: Option<Seq<u8>>) -> Seq<u8> {
    match settings {
        Some(s) => s,
        None => seq![123u8, 125u8],
    }
}

/// The payload of the guest's `validate` export: `{"request":R,"settings":S}`.
pub open spec fn validate_payload(request: Seq<u8>, settings: Seq<u8>) -> Seq<u8> {
    seq![123u8, 34u8, 114u8, 101u8, 113u8, 117u8, 101u8, 115u8, 116u8, 34u8, 58u8] + request + seq![
        44u8,
        34u8,
        115u8,
        101u8,
        116u8,
        116u8,
        105u8,
        110u8,
        103u8,
        115u8,
        34u8,
        58u8,
    ] + settings + seq![125u8]
}

/// `r` is the rejection with `code` and `message` for the request `uid`.
pub open spec fn is_rejection(r: ValidationResponse, uid: Seq<char>, code: u16, message: Seq<char>) -> bool {
    &&& r.uid@ == uid
    &&& !r.allowed
    &&& r.code == Some(code)
    &&& opt_text(r.message) == Some(message)
    &&& r.mutated_object is None
}

/// `r` carries the guest verdict `v` for the request `uid`.
pub open spec fn carries_verdict(r: ValidationResponse, uid: Seq<char>, v: PolicyVerdict) -> bool {
    &&& r.uid@ == uid
    &&& r.allowed == v.accepted
    &&& r.code == v.code
    &&& r.message == v.message
    &&& r.mutated_object == v.mutated_object
}

/// What the evaluator answers for `uid` once the guest replied `reply`.
pub open spec fn answers_reply(r: ValidationResponse, uid: Seq<char>, reply: Result<Seq<u8>, Seq<char>>) -> bool {
    match reply {
        Err(e) => is_rejection(r, uid, 500, e),
        Ok(b) => match verdict_of(b) {
            Some(v) => carries_verdict(r, uid, v),
            None => {
                &&& r.uid@ == uid
                &&& !r.allowed
                &&& r.code == Some(500u16)
                &&& r.message is Some
                &&& "cannot deserialize policy validation response: "@.is_prefix_of(
                    r.message->Some_0@,
                )
                &&& r.mutated_object is None
            },
        },
    }
}

/// The view of a sandbox reply.
pub open spec fn reply_view(reply: Result<Vec<u8>, String>) -> Result<Seq<u8>, Seq<char>> {
    match reply {
        Ok(b) => Ok(b@),
        Err(e) => Err(e@),
    }
}

/// What the evaluator reports for a settings validation whose guest replied `reply`.
pub open spec fn answers_settings_reply(
    r: SettingsValidationResponse,
    reply: Result<Seq<u8>, Seq<char>>,
) -> bool {
    match reply {
        Err(e) => !r.valid && opt_text(r.message) == Some(
            "Error invoking settings validation callback: "@ + e,
        ),
        Ok(b) => match settings_reply_of(b) {
            Some(v) => r == v,
            None => !r.valid && r.message is Some && "error: cannot convert response: "@.is_prefix_of(
                r.message->Some_0@,
            ),
        },
    }
}

/// What the evaluator reports for a protocol version query whose guest replied `reply`.
pub open spec fn answers_version_reply(
    r: Result<ProtocolVersion, String>,
    reply: Result<Seq<u8>, Seq<char>>,
) -> bool {
    match reply {
        Err(e) => r is Err && r->Err_0@ == "Cannot invoke 'protocol_version' waPC function: "@ + e,
        Ok(b) => match protocol_version_of(b) {
            Some(v) => r == Ok::<_, String>(v),
            None => r is Err && ("Cannot create ProtocolVersion object from '"@ + debug_of(b)
                + "': "@).is_prefix_of(r->Err_0@),
        },
    }
}

impl ValidateRequest {
    pub fn new(request: Vec<u8>) -> (r: ValidateRequest)
        ensures
            r.0 == request,
    {
        ValidateRequest(request)
    }

    /// The request's correlation id, empty where it has none.
    pub fn uid(&self) -> (r: String)
        ensures
            r@ == request_uid_of(self.0@),
    {
        match json_field(self.0.as_slice(), "uid") {
            JsonField::Text(s) => s,
            _ => String::new(),
        }
    }

    /// Whether the request carries an `object` field.
    pub fn has_object(&self) -> (r: bool)
        ensures
            r == has_object(self.0@),
    {
        match json_field(self.0.as_slice(), "object") {
            JsonField::Absent | JsonField::Unreadable => false,
            _ => true,
        }
    }
}

impl ValidationResponse {
    /// A rejection of the request `uid` with `message` and the status `code`.
    pub fn reject(uid: String, message: String, code: u16) -> (r: ValidationResponse)
        ensures
            is_rejection(r, uid@, code, message@),
    {
        ValidationResponse { uid, allowed: false, code: Some(code), message: Some(message), mutated_object: None }
    }

    /// A rejection of the request `uid` as an internal server error.
    pub fn reject_internal_server_error(uid: String, message: String) -> (r: ValidationResponse)
        ensures
            is_rejection(r, uid@, 500, message@),
    {
        ValidationResponse::reject(uid, message, internal_server_error_code())
    }

    /// The decision that a guest verdict gives for the request `uid`.
    pub fn from_policy_validation_response(uid: String, verdict: PolicyVerdict) -> (r: ValidationResponse)
        ensures
            carries_verdict(r, uid@, verdict),
    {
        ValidationResponse {
            uid,
            allowed: verdict.accepted,
            code: verdict.code,
            message: verdict.message,
            mutated_object: verdict.mutated_object,
        }
    }

    /// The decision for the request `uid` once the guest's `validate` export
    /// replied `reply`.
    pub fn from_reply(uid: String, reply: Result<Vec<u8>, String>) -> (r: ValidationResponse)
        ensures
            answers_reply(r, uid@, reply_view(reply)),
    {
        match reply {
            Err(e) => ValidationResponse::reject_internal_server_error(uid, e),
            Ok(b) => match decode_verdict(b.as_slice()) {
                Ok(v) => ValidationResponse::from_policy_validation_response(uid, v),
                Err(e) => ValidationResponse::reject_internal_server_error(
                    uid,
                    String::from_str("cannot deserialize policy validation response: ").concat(
                        e.as_str(),
                    ),
                ),
            },
        }
    }
}

/// The settings as sent to the guest.
pub fn settings_or_empty(settings: &Option<Vec<u8>>) -> (r: Vec<u8>)
    ensures
        r@ == settings_payload(opt_bytes(*settings)),
{
    match settings {
        Some(s) => vstd::slice::slice_to_vec(s.as_slice()),
        None => vec![123u8, 125u8],
    }
}

/// The view of optional bytes.
pub open spec fn opt_bytes(o: Option<Vec<u8>>) -> Option<Seq<u8>> {
    match o {
        Some(b) => Some(b@),
        None => None,
    }
}

/// Frames a request and its settings as the guest's `validate` payload.
pub fn validate_params(request: &[u8], settings: &[u8]) -> (r: Vec<u8>)
    ensures
        r@ == validate_payload(request@, settings@),
{
    let mut out: Vec<u8> = vec![123u8, 34u8, 114u8, 101u8, 113u8, 117u8, 101u8, 115u8, 116u8, 34u8, 58u8];
    let mut part = vstd::slice::slice_to_vec(request);
    out.append(&mut part);
    let mut mid: Vec<u8> = vec![44u8, 34u8, 115u8, 101u8, 116u8, 116u8, 105u8, 110u8, 103u8, 115u8, 34u8, 58u8];
    out.append(&mut mid);
    let mut part = vstd::slice::slice_to_vec(settings);
    out.append(&mut part);
    let mut tail: Vec<u8> = vec![125u8];
    out.append(&mut tail);
    out
}

impl SettingsValidationResponse {
    /// The outcome of a settings validation whose guest replied `reply`.
    pub fn from_reply(reply: Result<Vec<u8>, String>) -> (r: SettingsValidationResponse)
        ensures
            answers_settings_reply(r, reply_view(reply)),
    {
        match reply {
            Err(e) => SettingsValidationResponse {
                valid: false,
                message: Some(
                    String::from_str("Error invoking settings validation callback: ").concat(
                        e.as_str(),
                    ),
                ),
            },
            Ok(b) => match decode_settings_reply(b.as_slice()) {
                Ok(v) => v,
                Err(e) => SettingsValidationResponse {
                    valid: false,
                    message: Some(
                        String::from_str("error: cannot convert response: ").concat(e.as_str()),
                    ),
                },
            },
        }
    }
}

/// The protocol version that a guest reply announces.
pub fn protocol_version_from_reply(reply: Result<Vec<u8>, String>) -> (r: Result<ProtocolVersion, String>)
    ensures
        answers_version_reply(r, reply_view(reply)),
{
    match reply {
        Err(e) => Err(
            String::from_str("Cannot invoke 'protocol_version' waPC function: ").concat(e.as_str()),
        ),
        Ok(b) => {
            let shown = debug_text(&b);
            match decode_protocol_version(b) {
                Ok(v) => Ok(v),
                Err(e) => Err(
                    String::from_str("Cannot create ProtocolVersion object from '").concat(
                        shown.as_str(),
                    ).concat("': ").concat(e.as_str()),
                ),
            }
        },
    }
}

impl<S: Sandbox> PolicyEvaluator<S> {
    /// Builds the context of the sandbox instance `wapc_policy_id` and
    /// registers it.
    pub fn from_contents_internal(
        registry: &mut PolicyRegistry,
        wapc_policy_id: u64,
        settings: Option<Vec<u8>>,
    ) -> (r: Policy)
        ensures
            r.wapc_policy_id == wapc_policy_id,
            r.settings == settings,
            r.request_uid is None,
            final(registry)@.dom() == old(registry)@.dom().insert(wapc_policy_id),
            forall|h: u64| h != wapc_policy_id ==> #[trigger] final(registry)@[h] == old(registry)@[h],
            final(registry)@[wapc_policy_id].same_as(r),
    {
        let policy = Policy::new(wapc_policy_id, settings);
        registry.register(wapc_policy_id, policy.copy());
        policy
    }

    /// An evaluator driving `wapc_host`, whose context is registered under the
    /// instance's identity.
    pub fn from_contents(
        registry: &mut PolicyRegistry,
        wapc_host: S,
        settings: Option<Vec<u8>>,
    ) -> (r: PolicyEvaluator<S>)
        ensures
            r.policy.settings == settings,
            r.policy.request_uid is None,
            final(registry)@.dom() == old(registry)@.dom().insert(r.policy.wapc_policy_id),
            forall|h: u64|
                h != r.policy.wapc_policy_id ==> #[trigger] final(registry)@[h] == old(registry)@[h],
            final(registry)@[r.policy.wapc_policy_id].same_as(r.policy),
    {
        let id = wapc_host.id();
        let policy = PolicyEvaluator::<S>::from_contents_internal(registry, id, settings);
        PolicyEvaluator { wapc_host, policy }
    }

    /// The host-side steps of a `validate` call, up to the guest invocation. The
    /// context registered for this policy takes the request's correlation id; a
    /// request without `object` is then refused as a bad request; otherwise the
    /// result is the payload for the guest's `validate` export.
    pub fn prepare_validate(&self, registry: &mut PolicyRegistry, request: &ValidateRequest) -> (r: Result<Vec<u8>, ValidationResponse>)
        ensures
            final(registry)@.dom() == old(registry)@.dom().insert(self.policy.wapc_policy_id),
            forall|h: u64|
                h != self.policy.wapc_policy_id ==> #[trigger] final(registry)@[h] == old(registry)@[h],
            final(registry)@[self.policy.wapc_policy_id].wapc_policy_id == self.policy.wapc_policy_id,
            opt_bytes(final(registry)@[self.policy.wapc_policy_id].settings) == opt_bytes(self.policy.settings),
            opt_text(final(registry)@[self.policy.wapc_policy_id].request_uid) == Some(request_uid_of(request.0@)),
            r is Err <==> !has_object(request.0@),
            r is Err ==> is_rejection(
                r->Err_0,
                request_uid_of(request.0@),
                400,
                "request doesn't have an 'object' value"@,
            ),
            r is Ok ==> r->Ok_0@ == validate_payload(
                request.0@,
                settings_payload(opt_bytes(self.policy.settings)),
            ),
    {
        let uid = request.uid();
        let policy = self.policy.with_request_uid(String::from_str(uid.as_str()));
        registry.register(self.policy.wapc_policy_id, policy);
        if !request.has_object() {
            return Err(
                ValidationResponse::reject(
                    uid,
                    String::from_str("request doesn't have an 'object' value"),
                    bad_request_code(),
                ),
            );
        }
        let settings = settings_or_empty(&self.policy.settings);
        Ok(validate_params(request.0.as_slice(), settings.as_slice()))
    }

    /// Evaluates an admission request: `prepare_validate`, then the guest's
    /// `validate` export on the payload, whose reply decides.
    pub fn validate(&self, registry: &mut PolicyRegistry, request: &ValidateRequest) -> (r: ValidationResponse)
        ensures
            r.uid@ == request_uid_of(request.0@),
            final(registry)@.dom() == old(registry)@.dom().insert(self.policy.wapc_policy_id),
            forall|h: u64|
                h != self.policy.wapc_policy_id ==> #[trigger] final(registry)@[h] == old(registry)@[h],
            final(registry)@[self.policy.wapc_policy_id].wapc_policy_id == self.policy.wapc_policy_id,
            opt_bytes(final(registry)@[self.policy.wapc_policy_id].settings) == opt_bytes(self.policy.settings),
            opt_text(final(registry)@[self.policy.wapc_policy_id].request_uid) == Some(request_uid_of(request.0@)),
            !has_object(request.0@) ==> is_rejection(
                r,
                request_uid_of(request.0@),
                400,
                "request doesn't have an 'object' value"@,
            ),
            has_object(request.0@) ==> exists|reply: Result<Seq<u8>, Seq<char>>|
                answers_reply(r, request_uid_of(request.0@), reply),
    {
        match self.prepare_validate(registry, request) {
            Err(rejection) => rejection,
            Ok(params) => {
                let reply = self.wapc_host.call("validate", params.as_slice());
                let r = ValidationResponse::from_reply(request.uid(), reply);
                assert(answers_reply(r, request_uid_of(request.0@), reply_view(reply)));
                r
            },
        }
    }

    /// Asks the guest to validate the configured settings (or `{}`).
    pub fn validate_settings(&self) -> (r: SettingsValidationResponse)
        ensures
            exists|reply: Result<Seq<u8>, Seq<char>>| answers_settings_reply(r, reply),
    {
        let settings = settings_or_empty(&self.policy.settings);
        let reply = self.wapc_host.call("validate_settings", settings.as_slice());
        let r = SettingsValidationResponse::from_reply(reply);
        assert(answers_settings_reply(r, reply_view(reply)));
        r
    }

    /// Asks the guest which protocol version it speaks.
    pub fn protocol_version(&self) -> (r: Result<ProtocolVersion, String>)
        ensures
            exists|reply: Result<Seq<u8>, Seq<char>>| answers_version_reply(r, reply),
    {
        let empty: Vec<u8> = Vec::new();
        let reply = self.wapc_host.call("protocol_version", empty.as_slice());
        let r = protocol_version_from_reply(reply);
        assert(answers_version_reply(r, reply_view(reply)));
        r
    }
}

/// A guest that reports `{valid: true}` for the settings gets exactly
/// `{valid: true, message: None}` back from the evaluator.
pub proof fn lemma_settings_accepted_round_trip(reply: Seq<u8>, r: SettingsValidationResponse)
    requires
        settings_reply_of(reply) == Some(SettingsValidationResponse { valid: true, message: None }),
        answers_settings_reply(r, Ok(reply)),
    ensures
        r.valid,
        r.message is None,
{
}

/// A guest reply that does not decode as a protocol version gives an error,
/// which names the failure.
pub proof fn lemma_unparsable_version_fails(reply: Seq<u8>, r: Result<ProtocolVersion, String>)
    requires
        protocol_version_of(reply) is None,
        answers_version_reply(r, Ok(reply)),
    ensures
        r is Err,
        ("Cannot create ProtocolVersion object from '"@ + debug_of(reply) + "': "@).is_prefix_of(
            r->Err_0@,
        ),
{
}

} // verus!
