use vstd::prelude::*;

verus! {

/// The guest's answer to one `validate` call, before it is shaped for the caller.
#[derive(Debug, PartialEq, Eq)]
pub struct PolicyVerdict {
    pub accepted: bool,
    pub message: Option<String>,
    pub code: Option<u16>,
    /// The mutated object, as JSON text, for mutating policies.
    pub mutated_object: Option<Vec<u8>>,
}

/// Outcome of a settings validation.
#[derive(Debug, PartialEq, Eq)]
pub struct SettingsValidationResponse {
    pub valid: bool,
    pub message: Option<String>,
}

/// Version of the protocol spoken between host and guest.
#[derive(Debug, Clone, Copy, PartialEq, Eq, Structural)]
pub enum ProtocolVersion {
    Unknown,
    V1,
}

} // verus!
