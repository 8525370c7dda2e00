//! The closed set of artifact-hosting backends a tool can be fetched from.

use vstd::prelude::*;

use crate::text::str_eq;

verus! {

/// A hosting backend for tool artifacts.  The set is closed and exhaustively
/// matched; GitHub is the default backend.
#[derive(Debug, Clone, Copy, PartialEq, Eq, Hash, Structural)]
pub enum ArtifactProvider {
    GitHub,
}

/// The backend assumed when a tool identifier carries no provider tag.
pub open spec fn default_provider() -> ArtifactProvider {
    ArtifactProvider::GitHub
}

/// The backend named by a provider tag, or `None` for an empty or
/// unrecognised tag.
pub open spec fn provider_of_tag(tag: Seq<char>) -> Option<ArtifactProvider> {
    if tag == "github"@ {
        Some(ArtifactProvider::GitHub)
    } else {
        None
    }
}

/// The textual tag of a backend, the form accepted back by tag parsing.
pub open spec fn tag_of_provider(p: ArtifactProvider) -> Seq<char> {
    "github"@
}

impl ArtifactProvider {
    /// Parses a provider tag; empty or unrecognised tags yield `None`.
    pub fn from_tag(tag: &str) -> (r: Option<ArtifactProvider>)
        ensures
            r == provider_of_tag(tag@),
    {
        if str_eq(tag, "github") {
            Some(ArtifactProvider::GitHub)
        } else {
            None
        }
    }

    /// The textual tag of this backend.
    pub fn tag(&self) -> (r: &'static str)
        ensures
            r@ == tag_of_provider(*self),
    {
        "github"
    }
}

impl Default for ArtifactProvider {
    /// The default backend, GitHub.
    fn default() -> (r: Self)
        ensures
            r == default_provider(),
    {
        ArtifactProvider::GitHub
    }
}

/// Tag parsing and tag rendering are mutually inverse on the closed set of
/// backends.
pub proof fn lemma_provider_tag_round_trip(p: ArtifactProvider)
    ensures
        provider_of_tag(tag_of_provider(p)) == Some(p),
{
}

} // verus!
