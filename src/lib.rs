//! Host-side core of a policy evaluator: a registry of policy contexts keyed by
//! sandbox handle, the dispatcher for guest-to-host calls, the decoder of guest
//! log records, and the evaluator facade that drives one sandboxed policy.
pub mod callback;
pub mod context;
pub mod evaluator;
pub mod json;
pub mod log_bridge;
pub mod outside;
pub mod responses;
