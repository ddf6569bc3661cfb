//! Contract validation failures.

use vstd::prelude::*;

verus! {

/// Reports a contract validation failure.
#[derive(Debug, Clone, PartialEq, Eq)]
pub enum ContractError {
    NonFinite { field: &'static str },
    OutOfRange { field: &'static str },
    InvalidQuaternion,
    InvalidTimeOrder { earlier: &'static str, later: &'static str },
    InvalidSequence,
    UnsupportedSchemaVersion { found: u32, expected: u32 },
    EmptyField { field: &'static str },
    MissingJoint { field: &'static str, joint: &'static str },
    DuplicateJoint { field: &'static str, joint: &'static str },
    JointSetMismatch { field: &'static str },
    InvalidImageLayout,
}

/// Defines cross-field validation for a contract type.
///
/// Each implementation states in its own `ensures` which inputs pass and
/// which error the first failing check reports.
pub trait Validate {
    /// Checks all invariants that field types cannot enforce, reporting the
    /// first contract violation.
    fn validate(&self) -> Result<(), ContractError>;
}

} // verus!
