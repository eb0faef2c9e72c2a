use crate::context::PolicyRegistry;
use crate::log_bridge::{well_formed_record, LogError, LogEvent};
use vstd::prelude::*;
use vstd::string::StringExecFns;

verus! {

/// Host capabilities a guest can reach.
#[derive(Debug, Clone, Copy, PartialEq, Eq, Structural)]
pub enum Route {
    Log,
    Ingresses,
    Namespaces,
    Services,
}

/// Which part of a (binding, namespace, operation) triple matched nothing.
#[derive(Debug, Clone, Copy, PartialEq, Eq, Structural)]
pub enum UnknownPart {
    Binding,
    Namespace,
    Operation,
}

/// A guest asked for a capability that the host does not offer.
#[derive(Debug, PartialEq, Eq)]
pub struct UnknownCapability {
    pub part: UnknownPart,
    pub binding: String,
    pub namespace: String,
    pub operation: String,
}

/// What the host does for one guest call.
#[derive(Debug, PartialEq, Eq)]
pub enum HostAction {
    /// Emit the decoded log event; the guest gets an empty reply.
    Log(LogEvent),
    /// Report that the log payload could not be decoded; the guest still gets
    /// an empty reply.
    LogFailed(LogError),
    /// Reply with the cluster-state provider's serialized ingress list.
    Ingresses,
    /// Reply with the cluster-state provider's serialized namespace list.
    Namespaces,
    /// Reply with the cluster-state provider's serialized service list.
    Services,
}

/// The routing table of guest calls.
pub open spec fn route_of(binding: Seq<char>, namespace: Seq<char>, operation: Seq<char>) -> Option<Route> {
    if binding == "kubewarden"@ && namespace == "tracing"@ && operation == "log"@ {
        Some(Route::Log)
    } else if binding == "kubernetes"@ && namespace == "ingresses"@ {
        Some(Route::Ingresses)
    } else if binding == "kubernetes"@ && namespace == "namespaces"@ {
        Some(Route::Namespaces)
    } else if binding == "kubernetes"@ && namespace == "services"@ {
        Some(Route::Services)
    } else {
        None
    }
}

/// The first part of an unrouted triple that matched nothing.
pub open spec fn unknown_part_of(binding: Seq<char>, namespace: Seq<char>) -> UnknownPart {
    if binding == "kubewarden"@ {
        if namespace == "tracing"@ {
            UnknownPart::Operation
        } else {
            UnknownPart::Namespace
        }
    } else if binding == "kubernetes"@ {
        UnknownPart::Namespace
    } else {
        UnknownPart::Binding
    }
}

fn text_is(s: &str, word: &str) -> (r: bool)
    ensures
        r == (s@ == word@),
{
    String::from_str(s) == String::from_str(word)
}

/// Looks a (binding, namespace, operation) triple up in the routing table.
pub fn route(binding: &str, namespace: &str, operation: &str) -> (r: Result<Route, UnknownCapability>)
    ensures
        r is Ok ==> route_of(binding@, namespace@, operation@) == Some(r->Ok_0),
        r is Err ==> route_of(binding@, namespace@, operation@) is None,
        r is Err ==> r->Err_0.part == unknown_part_of(binding@, namespace@),
        r is Err ==> r->Err_0.binding@ == binding@,
        r is Err ==> r->Err_0.namespace@ == namespace@,
        r is Err ==> r->Err_0.operation@ == operation@,
{
    proof {
        reveal_strlit("kubewarden");
        reveal_strlit("kubernetes");
        assert("kubewarden"@[4] != "kubernetes"@[4]);
    }
    let part = if text_is(binding, "kubewarden") {
        if text_is(namespace, "tracing") {
            if text_is(operation, "log") {
                return Ok(Route::Log);
            }
            UnknownPart::Operation
        } else {
            UnknownPart::Namespace
        }
    } else if text_is(binding, "kubernetes") {
        if text_is(namespace, "ingresses") {
            return Ok(Route::Ingresses);
        } else if text_is(namespace, "namespaces") {
            return Ok(Route::Namespaces);
        } else if text_is(namespace, "services") {
            return Ok(Route::Services);
        }
        UnknownPart::Namespace
    } else {
        UnknownPart::Binding
    };
    Err(
        UnknownCapability {
            part,
            binding: String::from_str(binding),
            namespace: String::from_str(namespace),
            operation: String::from_str(operation),
        },
    )
}

impl UnknownCapability {
    /// Human-readable description of the unmatched part.
    pub fn message(&self) -> (r: String)
        ensures
            r@ == match self.part {
                UnknownPart::Binding => "unknown binding: "@ + self.binding@,
                UnknownPart::Namespace => "unknown namespace: "@ + self.namespace@,
                UnknownPart::Operation => "unknown operation: "@ + self.operation@,
            },
    {
        match self.part {
            UnknownPart::Binding => String::from_str("unknown binding: ").concat(self.binding.as_str()),
            UnknownPart::Namespace => String::from_str("unknown namespace: ").concat(
                self.namespace.as_str(),
            ),
            UnknownPart::Operation => String::from_str("unknown operation: ").concat(
                self.operation.as_str(),
            ),
        }
    }
}

impl HostAction {
    /// The reply the guest gets at once, where it does not wait on the
    /// cluster-state provider.
    pub fn immediate_reply(&self) -> (r: Option<Vec<u8>>)
        ensures
            match self {
                HostAction::Log(_) | HostAction::LogFailed(_) => r is Some && r->Some_0@ == Seq::<
                    u8,
                >::empty(),
                _ => r is None,
            },
    {
        match self {
            HostAction::Log(_) | HostAction::LogFailed(_) => Some(Vec::new()),
            _ => None,
        }
    }
}

/// Decides what the host does for one guest call made by the sandbox instance
/// `policy_id`. A log call never fails towards the guest: a payload that does
/// not decode gives `LogFailed`.
pub fn host_callback(
    registry: &PolicyRegistry,
    policy_id: u64,
    binding: &str,
    namespace: &str,
    operation: &str,
    payload: &[u8],
) -> (r: Result<HostAction, UnknownCapability>)
    requires
        route_of(binding@, namespace@, operation@) == Some(Route::Log) ==> registry@.contains_key(
            policy_id,
        ),
    ensures
        r is Err <==> route_of(binding@, namespace@, operation@) is None,
        r is Err ==> r->Err_0.part == unknown_part_of(binding@, namespace@),
        r is Err ==> r->Err_0.binding@ == binding@,
        r is Err ==> r->Err_0.namespace@ == namespace@,
        r is Err ==> r->Err_0.operation@ == operation@,
        route_of(binding@, namespace@, operation@) == Some(Route::Ingresses) ==> r == Ok::<
            _,
            UnknownCapability,
        >(HostAction::Ingresses),
        route_of(binding@, namespace@, operation@) == Some(Route::Namespaces) ==> r == Ok::<
            _,
            UnknownCapability,
        >(HostAction::Namespaces),
        route_of(binding@, namespace@, operation@) == Some(Route::Services) ==> r == Ok::<
            _,
            UnknownCapability,
        >(HostAction::Services),
        route_of(binding@, namespace@, operation@) == Some(Route::Log) ==> match r {
            Ok(HostAction::Log(ev)) => registry@[policy_id].log_ok(payload@, ev),
            Ok(HostAction::LogFailed(k)) => registry@[policy_id].log_fails(payload@, k),
            _ => false,
        },
        route_of(binding@, namespace@, operation@) == Some(Route::Log) && well_formed_record(payload@)
            ==> r matches Ok(HostAction::Log(_)),
{
    match route(binding, namespace, operation) {
        Err(e) => Err(e),
        Ok(Route::Ingresses) => Ok(HostAction::Ingresses),
        Ok(Route::Namespaces) => Ok(HostAction::Namespaces),
        Ok(Route::Services) => Ok(HostAction::Services),
        Ok(Route::Log) => {
            let policy = registry.lookup(policy_id).unwrap();
            match policy.log(payload) {
                Ok(ev) => Ok(HostAction::Log(ev)),
                Err(k) => Ok(HostAction::LogFailed(k)),
            }
        },
    }
}

/// Every triple outside the routing table is refused: the only bindings served
/// are `kubewarden` (with `tracing`/`log` alone) and `kubernetes` (with
/// `ingresses`, `namespaces` and `services`, whatever the operation).
pub proof fn lemma_routing_is_exhaustive(binding: Seq<char>, namespace: Seq<char>, operation: Seq<char>)
    ensures
        route_of(binding, namespace, operation) is Some <==> (binding == "kubewarden"@
            && namespace == "tracing"@ && operation == "log"@) || (binding == "kubernetes"@ && (
        namespace == "ingresses"@ || namespace == "namespaces"@ || namespace == "services"@)),
{
    reveal_strlit("kubewarden");
    reveal_strlit("kubernetes");
    assert("kubewarden"@[4] != "kubernetes"@[4]);
}

} // verus!
