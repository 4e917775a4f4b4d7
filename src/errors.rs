//! The structured errors of the engine's mutating operations.
use vstd::prelude::*;

verus! {

/// What went wrong, with the offending value.
#[derive(Debug, Clone, PartialEq, Eq)]
pub enum FluxError {
    /// An angle, track or mask index past the end of its list.
    IndexOutOfRange { index: usize, len: usize },
    /// A name that selects no method, protocol, angle or format.
    InvalidEnum { value: String },
    /// An operation the current state does not allow.
    InvalidState { reason: String },
}

impl FluxError {
    /// An `InvalidEnum` error that carries `value`.
    pub fn invalid_enum(value: &str) -> (r: FluxError)
        ensures
            r matches FluxError::InvalidEnum { value: v } && v@ == value@,
    {
        FluxError::InvalidEnum { value: String::from_str(value) }
    }

    /// An `InvalidState` error that carries `reason`.
    pub fn invalid_state(reason: &str) -> (r: FluxError)
        ensures
            r matches FluxError::InvalidState { reason: v } && v@ == reason@,
    {
        FluxError::InvalidState { reason: String::from_str(reason) }
    }
}

} // verus!
