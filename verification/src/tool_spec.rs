//! Downstream values built by consuming a tool identifier: a specification
//! pinning the identifier to a resolved version, and an alias re-labelling
//! it as a short invocation name.

use vstd::prelude::*;

use crate::id::ToolId;

verus! {

/// Declares `semver::Version`, the resolved-version type a tool
/// specification carries.  The value is opaque here; only the version
/// resolver reads it.
#[verifier::external_type_specification]
#[verifier::external_body]
pub struct ExVersion(semver::Version);

/// A tool identifier bound to one resolved version.
#[derive(Debug)]
pub struct ToolSpec {
    pub id: ToolId,
    pub version: semver::Version,
}

/// A tool identifier re-labelled as a short invocation name: the alias keeps
/// only the tool's name segment, in its original casing.
#[derive(Debug, Clone)]
pub struct ToolAlias {
    pub name: String,
}

impl ToolId {
    /// Consumes this identifier into a specification of the given version.
    pub fn into_spec(self, version: semver::Version) -> (r: ToolSpec)
        ensures
            r.id == self,
            r.version == version,
    {
        ToolSpec { id: self, version }
    }

    /// Consumes this identifier into an alias named after its name segment.
    pub fn into_alias(self) -> (r: ToolAlias)
        ensures
            r.name@ == self@.cased_name,
    {
        let name = String::from_str(self.name());
        ToolAlias { name }
    }
}

} // verus!
