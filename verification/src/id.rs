//! The canonical tool identifier: provider, author and name, parsed from
//! text of the form `[provider:]author/name`.
//!
//! The author and name keep their original casing for display, while
//! equality, ordering and hashing work over their ASCII-lowercased
//! projections, so identifiers that differ only by ASCII case are the same
//! identifier.  The provider takes no part in identity.

use vstd::prelude::*;

use crate::provider::{default_provider, provider_of_tag, ArtifactProvider};
use crate::text::{
    cmp_str, find, find_char, is_invalid_identifier, lemma_find_props, lemma_trim_props, lower,
    seq_cmp, trim, trim_str, to_lower, valid_segment,
};

verus! {

/// The failure kinds of tool identifier parsing.  Each carries the offending
/// segment where there is one.
#[derive(Debug)]
pub enum ToolIdParseError {
    /// The input was empty.
    Empty,
    /// The input holds no `/` separator after any provider tag.
    MissingSeparator,
    /// The text left of the first `:` names no known provider.
    InvalidProvider(String),
    /// The trimmed author segment is empty or holds a `/`.
    InvalidAuthor(String),
    /// The trimmed name segment is empty or holds a `/`.
    InvalidName(String),
}

/// The mathematical value of a [`ToolIdParseError`]: the same five kinds
/// over character sequences.
pub enum ToolIdParseErrorView {
    Empty,
    MissingSeparator,
    InvalidProvider(Seq<char>),
    InvalidAuthor(Seq<char>),
    InvalidName(Seq<char>),
}

impl View for ToolIdParseError {
    type V = ToolIdParseErrorView;

    open spec fn view(&self) -> ToolIdParseErrorView {
        match self {
            ToolIdParseError::Empty => ToolIdParseErrorView::Empty,
            ToolIdParseError::MissingSeparator => ToolIdParseErrorView::MissingSeparator,
            ToolIdParseError::InvalidProvider(t) => ToolIdParseErrorView::InvalidProvider(t@),
            ToolIdParseError::InvalidAuthor(t) => ToolIdParseErrorView::InvalidAuthor(t@),
            ToolIdParseError::InvalidName(t) => ToolIdParseErrorView::InvalidName(t@),
        }
    }
}

/// The mathematical value of a [`ToolId`]: the provider, the two segments in
/// their original casing, and their ASCII-lowercased projections.
pub struct ToolIdView {
    pub provider: ArtifactProvider,
    pub cased_author: Seq<char>,
    pub cased_name: Seq<char>,
    pub uncased_author: Seq<char>,
    pub uncased_name: Seq<char>,
}

impl ToolIdView {
    /// The invariant every identifier satisfies: the uncased fields are the
    /// lowercased projections of the cased ones, and both cased segments are
    /// trimmed, non-empty and free of `/`.
    pub open spec fn wf(self) -> bool {
        &&& self.uncased_author == lower(self.cased_author)
        &&& self.uncased_name == lower(self.cased_name)
        &&& valid_segment(self.cased_author)
        &&& valid_segment(self.cased_name)
        &&& trim(self.cased_author) == self.cased_author
        &&& trim(self.cased_name) == self.cased_name
    }
}

/// Case-insensitive identity: identifiers are equal exactly when their
/// lowercased author and name agree.  The provider takes no part.
pub open spec fn id_eq(a: ToolIdView, b: ToolIdView) -> bool {
    a.uncased_author == b.uncased_author && a.uncased_name == b.uncased_name
}

/// Case-insensitive ordering: lexicographic comparison of the pair
/// (lowercased author, lowercased name).  The provider takes no part.
pub open spec fn id_cmp(a: ToolIdView, b: ToolIdView) -> core::cmp::Ordering {
    if seq_cmp(a.uncased_author, b.uncased_author) == core::cmp::Ordering::Equal {
        seq_cmp(a.uncased_name, b.uncased_name)
    } else {
        seq_cmp(a.uncased_author, b.uncased_author)
    }
}

/// A tool identifier: which tool, independent of version.
///
/// Constructed by [`ToolId::parse`]; immutable thereafter.  [`ToolId::author`]
/// and [`ToolId::name`] return the original casing, while `==`, comparison
/// and hashing are case-insensitive and ignore the provider.
#[derive(Debug, Clone)]
pub struct ToolId {
    provider: ArtifactProvider,
    uncased_author: String,
    uncased_name: String,
    cased_author: String,
    cased_name: String,
}

impl View for ToolId {
    type V = ToolIdView;

    closed spec fn view(&self) -> ToolIdView {
        ToolIdView {
            provider: self.provider,
            cased_author: self.cased_author@,
            cased_name: self.cased_name@,
            uncased_author: self.uncased_author@,
            uncased_name: self.uncased_name@,
        }
    }
}

/// Parsing of the part right of any provider tag: split at the first `/`,
/// trim both sides, and validate each side as a segment.
pub open spec fn spec_parse_rest(rest: Seq<char>, p: ArtifactProvider) -> Result<
    ToolIdView,
    ToolIdParseErrorView,
> {
    let j = find(rest, '/');
    if j < 0 {
        Err(ToolIdParseErrorView::MissingSeparator)
    } else {
        let author = trim(rest.subrange(0, j));
        let name = trim(rest.subrange(j + 1, rest.len() as int));
        if !valid_segment(author) {
            Err(ToolIdParseErrorView::InvalidAuthor(author))
        } else if !valid_segment(name) {
            Err(ToolIdParseErrorView::InvalidName(name))
        } else {
            Ok(
                ToolIdView {
                    provider: p,
                    cased_author: author,
                    cased_name: name,
                    uncased_author: lower(author),
                    uncased_name: lower(name),
                },
            )
        }
    }
}

/// The outcome of parsing `s` as a tool identifier.  A provider tag is a
/// first `:` standing before any `/`; the text left of it must name a known
/// provider, and the rest is author and name.  Without a tag the provider
/// defaults and the whole input is author and name.
pub open spec fn spec_parse(s: Seq<char>) -> Result<ToolIdView, ToolIdParseErrorView> {
    if s.len() == 0 {
        Err(ToolIdParseErrorView::Empty)
    } else {
        let ci = find(s, ':');
        let si = find(s, '/');
        if ci >= 0 && (si < 0 || ci < si) {
            let tag = s.subrange(0, ci);
            match provider_of_tag(tag) {
                Some(p) => spec_parse_rest(s.subrange(ci + 1, s.len() as int), p),
                None => Err(ToolIdParseErrorView::InvalidProvider(tag)),
            }
        } else {
            spec_parse_rest(s, default_provider())
        }
    }
}

/// The view of an executable parse outcome, for stating that it equals
/// [`spec_parse`].
pub open spec fn parse_result_view(r: Result<ToolId, ToolIdParseError>) -> Result<
    ToolIdView,
    ToolIdParseErrorView,
> {
    match r {
        Ok(id) => Ok(id@),
        Err(e) => Err(e@),
    }
}

impl ToolId {
    /// Parses a tool identifier from text of the form
    /// `[provider:]author/name`.  The outcome, success and every failure
    /// kind alike, is exactly [`spec_parse`] of the input.
    pub fn parse(s: &str) -> (r: Result<ToolId, ToolIdParseError>)
        ensures
            parse_result_view(r) == spec_parse(s@),
            r matches Ok(id) ==> id@.wf(),
    {
        let n = s.unicode_len();
        if n == 0 {
            return Err(ToolIdParseError::Empty);
        }
        let colon = find_char(s, ':');
        let slash = find_char(s, '/');
        proof {
            lemma_find_props(s@, ':');
            lemma_find_props(s@, '/');
        }
        let has_tag = match (colon, slash) {
            (None, _) => false,
            (Some(_), None) => true,
            (Some(ci), Some(si)) => ci < si,
        };
        let (provider, rest) = if has_tag {
            let ci = colon.unwrap();
            let tag = s.substring_char(0, ci);
            match ArtifactProvider::from_tag(tag) {
                Some(p) => (p, s.substring_char(ci + 1, n)),
                None => {
                    return Err(ToolIdParseError::InvalidProvider(String::from_str(tag)));
                },
            }
        } else {
            (ArtifactProvider::default(), s)
        };
        let m = rest.unicode_len();
        let j = match find_char(rest, '/') {
            None => {
                return Err(ToolIdParseError::MissingSeparator);
            },
            Some(j) => j,
        };
        proof {
            lemma_find_props(rest@, '/');
        }
        let before = rest.substring_char(0, j);
        let after = rest.substring_char(j + 1, m);
        let author = trim_str(before);
        let name = trim_str(after);
        if is_invalid_identifier(author) {
            return Err(ToolIdParseError::InvalidAuthor(String::from_str(author)));
        }
        if is_invalid_identifier(name) {
            return Err(ToolIdParseError::InvalidName(String::from_str(name)));
        }
        proof {
            lemma_trim_props(before@);
            lemma_trim_props(after@);
        }
        Ok(
            ToolId {
                provider,
                uncased_author: to_lower(author),
                uncased_name: to_lower(name),
                cased_author: String::from_str(author),
                cased_name: String::from_str(name),
            },
        )
    }

    /// The hosting backend this identifier points at.
    pub fn provider(&self) -> (r: ArtifactProvider)
        ensures
            r == self@.provider,
    {
        self.provider
    }

    /// The author segment, in its original casing.
    pub fn author(&self) -> (r: &str)
        ensures
            r@ == self@.cased_author,
    {
        self.cased_author.as_str()
    }

    /// The name segment, in its original casing.
    pub fn name(&self) -> (r: &str)
        ensures
            r@ == self@.cased_name,
    {
        self.cased_name.as_str()
    }

    /// The canonical text `author/name`, in original casing.  The provider
    /// tag is never re-emitted, even when parsing supplied one.
    pub fn render(&self) -> (r: String)
        ensures
            r@ == self@.cased_author + seq!['/'] + self@.cased_name,
    {
        let mut r = self.cased_author.clone();
        r.append("/");
        r.append(self.cased_name.as_str());
        proof {
            reveal_strlit("/");
            assert(r@ =~= self@.cased_author + seq!['/'] + self@.cased_name);
        }
        r
    }

    /// Case-insensitive three-way comparison over (author, name), the total
    /// order used for deterministic sorting of tool lists.
    pub fn cmp(&self, other: &ToolId) -> (r: core::cmp::Ordering)
        ensures
            r == id_cmp(self@, other@),
    {
        let first = cmp_str(self.uncased_author.as_str(), other.uncased_author.as_str());
        match first {
            core::cmp::Ordering::Equal => cmp_str(
                self.uncased_name.as_str(),
                other.uncased_name.as_str(),
            ),
            o => o,
        }
    }
}

impl PartialEq for ToolId {
    /// Case-insensitive equality over the lowercased author and name.
    fn eq(&self, other: &Self) -> (r: bool) {
        self.uncased_author == other.uncased_author && self.uncased_name == other.uncased_name
    }
}

impl vstd::std_specs::cmp::PartialEqSpecImpl for ToolId {
    open spec fn obeys_eq_spec() -> bool {
        true
    }

    open spec fn eq_spec(&self, other: &ToolId) -> bool {
        id_eq(self@, other@)
    }
}

impl Eq for ToolId {

}

impl PartialOrd for ToolId {
    /// Case-insensitive comparison; a total order on identifiers.
    fn partial_cmp(&self, other: &Self) -> (r: Option<core::cmp::Ordering>) {
        Some(self.cmp(other))
    }
}

impl vstd::std_specs::cmp::PartialOrdSpecImpl for ToolId {
    open spec fn obeys_partial_cmp_spec() -> bool {
        true
    }

    open spec fn partial_cmp_spec(&self, other: &ToolId) -> Option<core::cmp::Ordering> {
        Some(id_cmp(self@, other@))
    }
}

/// Relies on `<String as core::hash::Hash>::hash`: feeds the string, and
/// nothing else, to the hasher.
#[verifier::external_body]
fn hash_string_into<H: core::hash::Hasher>(s: &String, state: &mut H) {
    core::hash::Hash::hash(s, state);
}

impl core::hash::Hash for ToolId {
    /// Hashes exactly the lowercased author and name, in that order, so
    /// equal identifiers feed identical input to the hasher.
    fn hash<H: core::hash::Hasher>(&self, state: &mut H) {
        hash_string_into(&self.uncased_author, state);
        hash_string_into(&self.uncased_name, state);
    }
}

impl core::str::FromStr for ToolId {
    type Err = ToolIdParseError;

    fn from_str(s: &str) -> Result<ToolId, ToolIdParseError> {
        ToolId::parse(s)
    }
}

} // verus!

