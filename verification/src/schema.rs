//! The accepted persisted-schema version.

use vstd::prelude::*;

use crate::error::ContractError;

verus! {

/// Identifies the schema version emitted and accepted by this build.
pub const CURRENT_SCHEMA_VERSION: u32 = 1;

/// A checked persisted-schema version: it always equals
/// [`CURRENT_SCHEMA_VERSION`].
#[derive(Debug, Clone, Copy, PartialEq, Eq, Hash)]
pub struct SchemaVersion(u32);

impl View for SchemaVersion {
    type V = u32;

    closed spec fn view(&self) -> u32 {
        self.0
    }
}

impl SchemaVersion {
    /// The one schema version value: the supported version.
    pub closed spec fn supported() -> SchemaVersion {
        SchemaVersion(CURRENT_SCHEMA_VERSION)
    }

    #[verifier::type_invariant]
    spec fn is_supported(self) -> bool {
        self.0 == CURRENT_SCHEMA_VERSION
    }

    /// Returns the schema version emitted by this build.
    pub fn current() -> (v: Self)
        ensures
            v == Self::supported(),
            v@ == CURRENT_SCHEMA_VERSION,
    {
        SchemaVersion(CURRENT_SCHEMA_VERSION)
    }

    /// Checks a schema version read from persisted data: only
    /// [`CURRENT_SCHEMA_VERSION`] is accepted.
    pub fn from_raw(value: u32) -> (r: Result<Self, ContractError>)
        ensures
            value == CURRENT_SCHEMA_VERSION ==> r == Ok::<Self, ContractError>(Self::supported()),
            value == CURRENT_SCHEMA_VERSION ==> (r matches Ok(v) && v@ == value),
            value != CURRENT_SCHEMA_VERSION ==> r == Err::<Self, ContractError>(
                ContractError::UnsupportedSchemaVersion {
                    found: value,
                    expected: CURRENT_SCHEMA_VERSION,
                },
            ),
    {
        if value == CURRENT_SCHEMA_VERSION {
            Ok(SchemaVersion(value))
        } else {
            Err(
                ContractError::UnsupportedSchemaVersion {
                    found: value,
                    expected: CURRENT_SCHEMA_VERSION,
                },
            )
        }
    }

    /// Returns the checked schema version number.
    pub fn get(self) -> (value: u32)
        ensures
            value == self@,
            value == CURRENT_SCHEMA_VERSION,
            self == Self::supported(),
    {
        proof {
            use_type_invariant(&self);
        }
        self.0
    }
}

impl Default for SchemaVersion {
    fn default() -> (v: Self)
        ensures
            v == SchemaVersion::supported(),
            v@ == CURRENT_SCHEMA_VERSION,
    {
        Self::current()
    }
}

/// A schema version value is determined by its number, and the supported
/// version has the number [`CURRENT_SCHEMA_VERSION`].
pub proof fn schema_version_is_its_number(a: SchemaVersion, b: SchemaVersion)
    ensures
        (a == b) == (a@ == b@),
        SchemaVersion::supported()@ == CURRENT_SCHEMA_VERSION,
{
}

} // verus!
