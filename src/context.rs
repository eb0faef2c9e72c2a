use std::collections::HashMap;
use vstd::prelude::*;

verus! {

broadcast use vstd::std_specs::hash::group_hash_axioms;

/// Host-side record of one loaded policy: its sandbox handle, the settings it
/// was loaded with (as a JSON object's text), and the correlation id of the
/// request that is being evaluated.
#[derive(Debug, PartialEq, Eq)]
pub struct Policy {
    pub wapc_policy_id: u64,
    pub settings: Option<Vec<u8>>,
    pub request_uid: Option<String>,
}

/// Process-wide table from sandbox handle to the policy context that owns it.
pub struct PolicyRegistry {
    pub(crate) mapping: HashMap<u64, Policy>,
}

impl View for PolicyRegistry {
    type V = Map<u64, Policy>;

    closed spec fn view(&self) -> Map<u64, Policy> {
        self.mapping@
    }
}

pub fn copy_text(s: &Option<String>) -> (r: Option<String>)
    ensures
        r == *s,
{
    match s {
        Some(t) => Some(t.clone()),
        None => None,
    }
}

pub fn copy_bytes(s: &Option<Vec<u8>>) -> (r: Option<Vec<u8>>)
    ensures
        r is Some <==> s is Some,
        r is Some ==> r->Some_0@ == s->Some_0@,
{
    match s {
        Some(t) => Some(vstd::slice::slice_to_vec(t.as_slice())),
        None => None,
    }
}

impl Policy {
    /// A fresh context for the sandbox instance `wapc_policy_id`.
    pub fn new(wapc_policy_id: u64, settings: Option<Vec<u8>>) -> (r: Policy)
        ensures
            r.wapc_policy_id == wapc_policy_id,
            r.settings == settings,
            r.request_uid is None,
    {
        Policy { wapc_policy_id, settings, request_uid: None }
    }

    /// `other` holds the same handle, settings and correlation id.
    pub open spec fn same_as(&self, other: Policy) -> bool {
        &&& self.wapc_policy_id == other.wapc_policy_id
        &&& (self.settings is Some <==> other.settings is Some)
        &&& (self.settings is Some ==> self.settings->Some_0@ == other.settings->Some_0@)
        &&& self.request_uid == other.request_uid
    }

    /// An equal copy of this context.
    pub fn copy(&self) -> (r: Policy)
        ensures
            r.same_as(*self),
    {
        Policy {
            wapc_policy_id: self.wapc_policy_id,
            settings: copy_bytes(&self.settings),
            request_uid: copy_text(&self.request_uid),
        }
    }

    /// The same context, with the correlation id replaced.
    pub fn with_request_uid(&self, uid: String) -> (r: Policy)
        ensures
            r.wapc_policy_id == self.wapc_policy_id,
            r.settings is Some <==> self.settings is Some,
            r.settings is Some ==> r.settings->Some_0@ == self.settings->Some_0@,
            r.request_uid == Some(uid),
    {
        Policy {
            wapc_policy_id: self.wapc_policy_id,
            settings: copy_bytes(&self.settings),
            request_uid: Some(uid),
        }
    }
}

impl PolicyRegistry {
    pub fn new() -> (r: PolicyRegistry)
        ensures
            r@ == Map::<u64, Policy>::empty(),
    {
        PolicyRegistry { mapping: HashMap::new() }
    }

    /// Inserts the context for `handle`, replacing any earlier one.
    pub fn register(&mut self, handle: u64, policy: Policy)
        ensures
            final(self)@ == old(self)@.insert(handle, policy),
    {
        self.mapping.insert(handle, policy);
    }

    /// The context registered for `handle`, if any.
    pub fn lookup(&self, handle: u64) -> (r: Option<&Policy>)
        ensures
            r is Some <==> self@.contains_key(handle),
            r is Some ==> *r->Some_0 == self@[handle],
    {
        self.mapping.get(&handle)
    }

    pub fn contains(&self, handle: u64) -> (r: bool)
        ensures
            r == self@.contains_key(handle),
    {
        self.mapping.contains_key(&handle)
    }
}

/// A lookup right after a registration of the same handle yields the context
/// just registered, and a second registration makes the first unreachable.
pub proof fn lemma_register_then_lookup(reg: Map<u64, Policy>, handle: u64, first: Policy, second: Policy)
    ensures
        reg.insert(handle, first).contains_key(handle),
        reg.insert(handle, first)[handle] == first,
        reg.insert(handle, first).insert(handle, second)[handle] == second,
        reg.insert(handle, first).insert(handle, second) == reg.insert(handle, second),
{
    assert(reg.insert(handle, first).insert(handle, second) =~= reg.insert(handle, second));
}

/// Registrations under distinct handles do not see each other: after each
/// evaluator has registered its own context, each handle still yields its own.
pub proof fn lemma_distinct_handles_isolated(
    reg: Map<u64, Policy>,
    a: u64,
    for_a: Policy,
    b: u64,
    for_b: Policy,
)
    requires
        a != b,
    ensures
        reg.insert(a, for_a).insert(b, for_b)[a] == for_a,
        reg.insert(a, for_a).insert(b, for_b)[b] == for_b,
        reg.insert(a, for_a).insert(b, for_b) == reg.insert(b, for_b).insert(a, for_a),
{
    assert(reg.insert(a, for_a).insert(b, for_b) =~= reg.insert(b, for_b).insert(a, for_a));
}

} // verus!
