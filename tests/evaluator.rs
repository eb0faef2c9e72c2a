use policy_evaluator::callback::{host_callback, HostAction, UnknownPart};
use policy_evaluator::context::PolicyRegistry;
use policy_evaluator::evaluator::{
    validate_params, PolicyEvaluator, Sandbox, ValidateRequest, ValidationResponse,
};
use policy_evaluator::log_bridge::{parse_level, LogError, PolicyLogEntryLevel};
use policy_evaluator::responses::{ProtocolVersion, SettingsValidationResponse};
use std::cell::RefCell;

struct FakeSandbox {
    id: u64,
    reply: Result<Vec<u8>, String>,
    calls: RefCell<Vec<(String, Vec<u8>)>>,
}

impl FakeSandbox {
    fn new(id: u64, reply: Result<Vec<u8>, String>) -> FakeSandbox {
        FakeSandbox { id, reply, calls: RefCell::new(Vec::new()) }
    }
}

impl Sandbox for FakeSandbox {
    fn id(&self) -> u64 {
        self.id
    }

    fn call(&self, function: &str, payload: &[u8]) -> Result<Vec<u8>, String> {
        self.calls.borrow_mut().push((function.to_string(), payload.to_vec()));
        self.reply.clone()
    }
}

fn evaluator(
    registry: &mut PolicyRegistry,
    id: u64,
    reply: Result<Vec<u8>, String>,
    settings: Option<&str>,
) -> PolicyEvaluator<FakeSandbox> {
    PolicyEvaluator::from_contents(
        registry,
        FakeSandbox::new(id, reply),
        settings.map(|s| s.as_bytes().to_vec()),
    )
}

#[test]
fn policy_is_registered_in_the_mapping() {
    let mut registry = PolicyRegistry::new();
    let policy_id = 1;

    assert!(!registry.contains(policy_id));

    let policy =
        PolicyEvaluator::<FakeSandbox>::from_contents_internal(&mut registry, policy_id, None);

    assert!(registry.contains(policy_id));
    assert_eq!(registry.lookup(policy_id), Some(&policy));
}

#[test]
fn register_then_lookup_returns_latest() {
    let mut registry = PolicyRegistry::new();
    let first = PolicyEvaluator::<FakeSandbox>::from_contents_internal(&mut registry, 7, None);
    assert_eq!(registry.lookup(7), Some(&first));
    let second = PolicyEvaluator::<FakeSandbox>::from_contents_internal(
        &mut registry,
        7,
        Some(b"{\"a\":1}".to_vec()),
    );
    assert_eq!(registry.lookup(7), Some(&second));
    assert_ne!(registry.lookup(7), Some(&first));
    assert_eq!(registry.lookup(8), None);
}

#[test]
fn unknown_namespace_is_refused() {
    let registry = PolicyRegistry::new();
    let e = host_callback(&registry, 1, "kubernetes", "pods", "get", b"").unwrap_err();
    assert_eq!(e.part, UnknownPart::Namespace);
    assert_eq!(e.message(), "unknown namespace: pods");
}

#[test]
fn unknown_binding_and_operation_are_refused() {
    let registry = PolicyRegistry::new();
    let e = host_callback(&registry, 1, "other", "tracing", "log", b"").unwrap_err();
    assert_eq!(e.message(), "unknown binding: other");
    let e = host_callback(&registry, 1, "kubewarden", "tracing", "trace", b"").unwrap_err();
    assert_eq!(e.message(), "unknown operation: trace");
    let e = host_callback(&registry, 1, "kubewarden", "logging", "log", b"").unwrap_err();
    assert_eq!(e.message(), "unknown namespace: logging");
}

#[test]
fn cluster_routes_accept_any_operation() {
    let registry = PolicyRegistry::new();
    let r = host_callback(&registry, 1, "kubernetes", "ingresses", "list", b"").unwrap();
    assert_eq!(r, HostAction::Ingresses);
    assert_eq!(r.immediate_reply(), None);
    let r = host_callback(&registry, 1, "kubernetes", "namespaces", "", b"").unwrap();
    assert_eq!(r, HostAction::Namespaces);
    let r = host_callback(&registry, 1, "kubernetes", "services", "x", b"").unwrap();
    assert_eq!(r, HostAction::Services);
}

#[test]
fn log_call_succeeds_with_empty_reply() {
    let mut registry = PolicyRegistry::new();
    PolicyEvaluator::<FakeSandbox>::from_contents_internal(&mut registry, 3, None);
    let r = host_callback(
        &registry,
        3,
        "kubewarden",
        "tracing",
        "log",
        b"{\"level\":\"INFO\",\"message\":\"hi\"}",
    )
    .unwrap();
    assert_eq!(r.immediate_reply(), Some(Vec::new()));
    match r {
        HostAction::Log(ev) => {
            assert_eq!(ev.level, PolicyLogEntryLevel::Info);
            assert_eq!(ev.message, "hi");
            assert_eq!(ev.request_uid, None);
            assert_eq!(ev.data, b"{}".to_vec());
        }
        other => panic!("unexpected action {:?}", other),
    }
}

#[test]
fn log_keeps_extra_fields_and_defaults_message() {
    let mut registry = PolicyRegistry::new();
    PolicyEvaluator::<FakeSandbox>::from_contents_internal(&mut registry, 4, None);
    let r = host_callback(&registry, 4, "kubewarden", "tracing", "log", b"{\"level\":\"warning\",\"x\":1}")
        .unwrap();
    match r {
        HostAction::Log(ev) => {
            assert_eq!(ev.level, PolicyLogEntryLevel::Warning);
            assert_eq!(ev.message, "");
            assert_eq!(ev.data, b"{\"x\":1}".to_vec());
        }
        other => panic!("unexpected action {:?}", other),
    }
}

#[test]
fn bogus_log_level_is_contained() {
    let mut registry = PolicyRegistry::new();
    PolicyEvaluator::<FakeSandbox>::from_contents_internal(&mut registry, 5, None);
    let r = host_callback(&registry, 5, "kubewarden", "tracing", "log", b"{\"level\":\"bogus\"}")
        .unwrap();
    assert_eq!(r, HostAction::LogFailed(LogError::InvalidLogLevel(Some("bogus".to_string()))));
    assert_eq!(r.immediate_reply(), Some(Vec::new()));
    match r {
        HostAction::LogFailed(k) => assert_eq!(k.message(), "unknown log level bogus"),
        other => panic!("unexpected action {:?}", other),
    }
    let r = host_callback(&registry, 5, "kubewarden", "tracing", "log", b"not json").unwrap();
    assert_eq!(r, HostAction::LogFailed(LogError::Malformed));
    let r = host_callback(&registry, 5, "kubewarden", "tracing", "log", b"{\"message\":\"m\"}")
        .unwrap();
    assert_eq!(r, HostAction::LogFailed(LogError::InvalidLogLevel(None)));
    let r = host_callback(&registry, 5, "kubewarden", "tracing", "log", b"{\"level\":\"info\",\"message\":3}")
        .unwrap();
    assert_eq!(r, HostAction::LogFailed(LogError::Malformed));
}

#[test]
fn log_level_is_case_insensitive() {
    assert_eq!(parse_level("trace"), Some(PolicyLogEntryLevel::Trace));
    assert_eq!(parse_level("Debug"), Some(PolicyLogEntryLevel::Debug));
    assert_eq!(parse_level("wArNiNg"), Some(PolicyLogEntryLevel::Warning));
    assert_eq!(parse_level("ERROR"), Some(PolicyLogEntryLevel::Error));
    assert_eq!(parse_level("warn"), None);
}

#[test]
fn request_without_object_is_a_bad_request() {
    let mut registry = PolicyRegistry::new();
    let ev = evaluator(&mut registry, 10, Ok(b"{\"accepted\":true}".to_vec()), None);
    let r = ev.validate(&mut registry, &ValidateRequest::new(b"{\"uid\":\"u-1\"}".to_vec()));
    assert_eq!(
        r,
        ValidationResponse {
            uid: "u-1".to_string(),
            allowed: false,
            code: Some(400),
            message: Some("request doesn't have an 'object' value".to_string()),
            mutated_object: None,
        }
    );
    assert!(ev.wapc_host.calls.borrow().is_empty());
    assert_eq!(registry.lookup(10).unwrap().request_uid, Some("u-1".to_string()));
}

#[test]
fn accepted_verdict_is_passed_on() {
    let mut registry = PolicyRegistry::new();
    let ev = evaluator(&mut registry, 11, Ok(b"{\"accepted\":true}".to_vec()), Some("{\"k\":\"v\"}"));
    let request = b"{\"uid\":\"abc\",\"object\":{}}".to_vec();
    let r = ev.validate(&mut registry, &ValidateRequest::new(request.clone()));
    assert!(r.allowed);
    assert_eq!(r.uid, "abc");
    assert_eq!(r.code, None);
    let calls = ev.wapc_host.calls.borrow();
    assert_eq!(calls.len(), 1);
    assert_eq!(calls[0].0, "validate");
    assert_eq!(
        calls[0].1,
        b"{\"request\":{\"uid\":\"abc\",\"object\":{}},\"settings\":{\"k\":\"v\"}}".to_vec()
    );
}

#[test]
fn rejected_verdict_keeps_message_and_code() {
    let mut registry = PolicyRegistry::new();
    let reply = b"{\"accepted\":false,\"message\":\"no\",\"code\":403}".to_vec();
    let ev = evaluator(&mut registry, 12, Ok(reply), None);
    let r = ev.validate(&mut registry, &ValidateRequest::new(b"{\"object\":{}}".to_vec()));
    assert!(!r.allowed);
    assert_eq!(r.uid, "");
    assert_eq!(r.code, Some(403));
    assert_eq!(r.message, Some("no".to_string()));
}

#[test]
fn undecodable_verdict_is_an_internal_error() {
    let mut registry = PolicyRegistry::new();
    let ev = evaluator(&mut registry, 13, Ok(b"garbage".to_vec()), None);
    let r = ev.validate(&mut registry, &ValidateRequest::new(b"{\"uid\":\"x\",\"object\":1}".to_vec()));
    assert!(!r.allowed);
    assert_eq!(r.uid, "x");
    assert_eq!(r.code, Some(500));
    assert!(r.message.unwrap().starts_with("cannot deserialize policy validation response: "));
}

#[test]
fn transport_failure_is_an_internal_error() {
    let mut registry = PolicyRegistry::new();
    let ev = evaluator(&mut registry, 14, Err("trap".to_string()), None);
    let r = ev.validate(&mut registry, &ValidateRequest::new(b"{\"uid\":\"x\",\"object\":1}".to_vec()));
    assert_eq!(r.code, Some(500));
    assert_eq!(r.message, Some("trap".to_string()));
    assert_eq!(registry.lookup(14).unwrap().request_uid, Some("x".to_string()));
}

#[test]
fn validate_payload_frames_request_and_default_settings() {
    assert_eq!(validate_params(b"{}", b"{}"), b"{\"request\":{},\"settings\":{}}".to_vec());
}

#[test]
fn distinct_handles_keep_their_own_correlation_ids() {
    let mut registry = PolicyRegistry::new();
    let a = evaluator(&mut registry, 20, Ok(b"{\"accepted\":true}".to_vec()), None);
    let b = evaluator(&mut registry, 21, Ok(b"{\"accepted\":true}".to_vec()), None);
    a.validate(&mut registry, &ValidateRequest::new(b"{\"uid\":\"a\",\"object\":{}}".to_vec()));
    b.validate(&mut registry, &ValidateRequest::new(b"{\"uid\":\"b\",\"object\":{}}".to_vec()));
    assert_eq!(registry.lookup(20).unwrap().request_uid, Some("a".to_string()));
    assert_eq!(registry.lookup(21).unwrap().request_uid, Some("b".to_string()));
    let r = host_callback(&registry, 20, "kubewarden", "tracing", "log", b"{\"level\":\"debug\"}")
        .unwrap();
    match r {
        HostAction::Log(ev) => assert_eq!(ev.request_uid, Some("a".to_string())),
        other => panic!("unexpected action {:?}", other),
    }
}

#[test]
fn settings_accepted_round_trip() {
    let mut registry = PolicyRegistry::new();
    let ev = evaluator(&mut registry, 30, Ok(b"{\"valid\":true}".to_vec()), None);
    assert_eq!(ev.validate_settings(), SettingsValidationResponse { valid: true, message: None });
    let calls = ev.wapc_host.calls.borrow();
    assert_eq!(calls[0].0, "validate_settings");
    assert_eq!(calls[0].1, b"{}".to_vec());
}

#[test]
fn settings_failures_are_reported_invalid() {
    let mut registry = PolicyRegistry::new();
    let ev = evaluator(&mut registry, 31, Ok(b"nope".to_vec()), Some("{\"a\":1}"));
    let r = ev.validate_settings();
    assert!(!r.valid);
    assert!(r.message.unwrap().starts_with("error: cannot convert response: "));
    assert_eq!(ev.wapc_host.calls.borrow()[0].1, b"{\"a\":1}".to_vec());
    let ev = evaluator(&mut registry, 32, Err("boom".to_string()), None);
    let r = ev.validate_settings();
    assert_eq!(
        r,
        SettingsValidationResponse {
            valid: false,
            message: Some("Error invoking settings validation callback: boom".to_string()),
        }
    );
}

#[test]
fn protocol_version_is_decoded() {
    let mut registry = PolicyRegistry::new();
    let ev = evaluator(&mut registry, 40, Ok(b"\"v1\"".to_vec()), None);
    assert_eq!(ev.protocol_version(), Ok(ProtocolVersion::V1));
    assert_eq!(ev.wapc_host.calls.borrow()[0].1, Vec::<u8>::new());
}

#[test]
fn unparsable_protocol_version_fails_once() {
    let mut registry = PolicyRegistry::new();
    let ev = evaluator(&mut registry, 41, Ok(b"\"v100\"".to_vec()), None);
    let r = ev.protocol_version().unwrap_err();
    let shown = format!("{:?}", b"\"v100\"".to_vec());
    assert!(r.starts_with(&format!("Cannot create ProtocolVersion object from '{}': ", shown)));
    assert!(r.contains("Deserialization"));
    assert_eq!(ev.wapc_host.calls.borrow().len(), 1);
    let ev = evaluator(&mut registry, 42, Err("gone".to_string()), None);
    assert_eq!(
        ev.protocol_version(),
        Err("Cannot invoke 'protocol_version' waPC function: gone".to_string())
    );
}

#[test]
fn missing_log_level_is_named() {
    assert_eq!(LogError::InvalidLogLevel(None).message(), "missing log level");
    assert_eq!(LogError::Malformed.message(), "malformed log record");
}
