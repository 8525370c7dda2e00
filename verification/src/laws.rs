//! The laws of tool identifiers: what parsing yields on well-formed input,
//! how case-insensitive identity behaves, and that the comparison is a
//! strict total order.

use vstd::prelude::*;

use crate::id::{id_cmp, id_eq, spec_parse, spec_parse_rest, ToolIdView};
use crate::provider::{default_provider, provider_of_tag, ArtifactProvider};
use crate::text::{
    find, has_char, lemma_find_is_first, lemma_find_props, lemma_lower_subrange,
    lemma_seq_cmp_antisym, lemma_seq_cmp_eq, lemma_seq_cmp_trans,
    lemma_separators_survive_lower, lemma_trim_lower_commute, lemma_trim_no_new_chars,
    lemma_trim_props, lower, seq_cmp, trim, valid_segment,
};

verus! {

/// Parsing `author/name` built from two slash-free segments with non-empty
/// trims succeeds, keeps each segment's original casing trimmed, lowercases
/// the projections, and assigns the default provider.  The author segment
/// must also be colon-free, else its prefix would be read as a provider tag.
pub proof fn lemma_parse_concat(s: Seq<char>, a: Seq<char>, b: Seq<char>)
    requires
        s == a + seq!['/'] + b,
        !has_char(a, '/'),
        !has_char(a, ':'),
        !has_char(b, '/'),
        trim(a).len() > 0,
        trim(b).len() > 0,
    ensures
        spec_parse(s) == spec_parse_rest(s, default_provider()),
        spec_parse(s) == Ok::<ToolIdView, crate::id::ToolIdParseErrorView>(
            (ToolIdView {
                provider: default_provider(),
                cased_author: trim(a),
                cased_name: trim(b),
                uncased_author: lower(trim(a)),
                uncased_name: lower(trim(b)),
            }),
        ),
{
    let al = a.len() as int;
    assert(s.len() == a.len() + 1 + b.len());
    assert(s[al] == '/');
    assert forall|k: int| 0 <= k < al implies s[k] != '/' by {
        assert(s[k] == a[k]);
    }
    lemma_find_is_first(s, '/', al);
    let si = find(s, '/');
    let ci = find(s, ':');
    lemma_find_props(s, ':');
    if ci >= 0 {
        assert(s[ci] == ':');
        if ci < al {
            assert(s[ci] == a[ci]);
        }
        assert(ci > si);
    }
    assert(spec_parse(s) == spec_parse_rest(s, default_provider()));
    assert(s.subrange(0, al) =~= a);
    assert(s.subrange(al + 1, s.len() as int) =~= b);
    lemma_trim_no_new_chars(a, '/');
    lemma_trim_no_new_chars(b, '/');
    assert(valid_segment(trim(a)));
    assert(valid_segment(trim(b)));
}

/// Trimming the segments before parsing changes nothing: surrounding
/// whitespace never reaches the identifier.
pub proof fn lemma_parse_trims(a: Seq<char>, b: Seq<char>)
    requires
        !has_char(a, '/'),
        !has_char(a, ':'),
        !has_char(b, '/'),
        trim(a).len() > 0,
        trim(b).len() > 0,
    ensures
        spec_parse(a + seq!['/'] + b) == spec_parse(trim(a) + seq!['/'] + trim(b)),
{
    lemma_parse_concat(a + seq!['/'] + b, a, b);
    lemma_trim_no_new_chars(a, '/');
    lemma_trim_no_new_chars(a, ':');
    lemma_trim_no_new_chars(b, '/');
    lemma_trim_props(a);
    lemma_trim_props(b);
    lemma_parse_concat(trim(a) + seq!['/'] + trim(b), trim(a), trim(b));
}

/// A `github:` tag in front of `author/name` parses to the very same
/// identifier as the untagged text, because GitHub is the default provider.
pub proof fn lemma_parse_default_tag(a: Seq<char>, b: Seq<char>)
    requires
        !has_char(a, '/'),
        !has_char(a, ':'),
        !has_char(b, '/'),
        trim(a).len() > 0,
        trim(b).len() > 0,
    ensures
        spec_parse("github"@ + seq![':'] + a + seq!['/'] + b) == spec_parse(a + seq!['/'] + b),
{
    reveal_strlit("github");
    let g = "github"@;
    let r = a + seq!['/'] + b;
    let s = g + seq![':'] + a + seq!['/'] + b;
    assert(s =~= g + seq![':'] + r);
    assert(s.len() == 7 + r.len());
    assert(s[6] == ':');
    assert forall|k: int| 0 <= k < 6 implies s[k] != ':' && s[k] != '/' by {
        assert(s[k] == g[k]);
    }
    lemma_find_is_first(s, ':', 6);
    let al = a.len() as int;
    assert(s[7 + al] == '/');
    assert forall|k: int| 0 <= k < 7 + al implies s[k] != '/' by {
        if 6 <= k {
            if k > 6 {
                assert(s[k] == a[k - 7]);
            }
        }
    }
    lemma_find_is_first(s, '/', 7 + al);
    assert(s.subrange(0, 6) =~= g);
    assert(provider_of_tag(g) == Some(ArtifactProvider::GitHub));
    assert(s.subrange(7, s.len() as int) =~= r);
    assert(spec_parse(s) == spec_parse_rest(r, ArtifactProvider::GitHub));
    lemma_parse_concat(r, a, b);
    assert(ArtifactProvider::GitHub == default_provider());
}

/// Re-parsing the canonical render `author/name` of a well-formed,
/// colon-free identifier restores it exactly, except that the provider
/// falls back to the default: the render never carries the provider tag.
pub proof fn lemma_render_parse_round_trip(v: ToolIdView)
    requires
        v.wf(),
        !has_char(v.cased_author, ':'),
    ensures
        spec_parse(v.cased_author + seq!['/'] + v.cased_name) == Ok::<ToolIdView, crate::id::ToolIdParseErrorView>(
            (ToolIdView { provider: default_provider(), ..v }),
        ),
{
    lemma_parse_concat(
        v.cased_author + seq!['/'] + v.cased_name,
        v.cased_author,
        v.cased_name,
    );
}

/// Parsing is case-insensitive in the identity it yields: two inputs that
/// agree after ASCII lowercasing and both parse successfully give equal
/// identifiers, whatever their original casing.
pub proof fn lemma_parse_case_insensitive(s1: Seq<char>, s2: Seq<char>)
    requires
        lower(s1) == lower(s2),
        spec_parse(s1) is Ok,
        spec_parse(s2) is Ok,
    ensures
        id_eq(spec_parse(s1)->Ok_0, spec_parse(s2)->Ok_0),
{
    assert(s1.len() == lower(s1).len());
    assert(s2.len() == lower(s2).len());
    lemma_separators_survive_lower(s1);
    lemma_separators_survive_lower(s2);
    let ci = find(s1, ':');
    let si = find(s1, '/');
    assert(find(s2, ':') == ci);
    assert(find(s2, '/') == si);
    lemma_find_props(s1, ':');
    if ci >= 0 && (si < 0 || ci < si) {
        let tag1 = s1.subrange(0, ci);
        let tag2 = s2.subrange(0, ci);
        assert(provider_of_tag(tag1) is Some && provider_of_tag(tag2) is Some);
        let r1 = s1.subrange(ci + 1, s1.len() as int);
        let r2 = s2.subrange(ci + 1, s2.len() as int);
        lemma_lower_subrange(s1, ci + 1, s1.len() as int);
        lemma_lower_subrange(s2, ci + 1, s2.len() as int);
        assert(lower(r1) =~= lower(r2));
        lemma_parse_rest_case_insensitive(r1, r2);
    } else {
        lemma_parse_rest_case_insensitive(s1, s2);
    }
}

/// The author/name part of case-insensitive parsing: inputs that agree
/// after lowercasing yield equal lowercased projections.
proof fn lemma_parse_rest_case_insensitive(r1: Seq<char>, r2: Seq<char>)
    requires
        lower(r1) == lower(r2),
    ensures
        forall|p1: ArtifactProvider, p2: ArtifactProvider|
            (spec_parse_rest(r1, p1) is Ok && spec_parse_rest(r2, p2) is Ok) ==> id_eq(
                spec_parse_rest(r1, p1)->Ok_0,
                spec_parse_rest(r2, p2)->Ok_0,
            ),
{
    assert(r1.len() == lower(r1).len());
    assert(r2.len() == lower(r2).len());
    lemma_separators_survive_lower(r1);
    lemma_separators_survive_lower(r2);
    let j = find(r1, '/');
    assert(find(r2, '/') == j);
    if j >= 0 {
        lemma_find_props(r1, '/');
        let a1 = r1.subrange(0, j);
        let a2 = r2.subrange(0, j);
        let b1 = r1.subrange(j + 1, r1.len() as int);
        let b2 = r2.subrange(j + 1, r2.len() as int);
        lemma_lower_subrange(r1, 0, j);
        lemma_lower_subrange(r2, 0, j);
        lemma_lower_subrange(r1, j + 1, r1.len() as int);
        lemma_lower_subrange(r2, j + 1, r2.len() as int);
        assert(lower(a1) =~= lower(a2));
        assert(lower(b1) =~= lower(b2));
        lemma_trim_lower_commute(a1);
        lemma_trim_lower_commute(a2);
        lemma_trim_lower_commute(b1);
        lemma_trim_lower_commute(b2);
        assert(lower(trim(a1)) == lower(trim(a2)));
        assert(lower(trim(b1)) == lower(trim(b2)));
    }
}

/// Identity disregards the provider: identifiers whose lowercased author
/// and name agree are equal even across different hosting backends.
pub proof fn lemma_eq_ignores_provider(a: ToolIdView, b: ToolIdView)
    requires
        a.uncased_author == b.uncased_author,
        a.uncased_name == b.uncased_name,
    ensures
        id_eq(a, b),
{
}

/// Equal identifiers agree on both lowercased projections — the exact input
/// the hasher is fed — so equal identifiers always hash identically under
/// any deterministic hasher.
pub proof fn lemma_eq_hash_consistent(a: ToolIdView, b: ToolIdView)
    requires
        id_eq(a, b),
    ensures
        a.uncased_author == b.uncased_author,
        a.uncased_name == b.uncased_name,
{
}

/// The comparison reports `Equal` exactly on equal identifiers: it is
/// consistent with case-insensitive equality.
pub proof fn lemma_id_cmp_eq(a: ToolIdView, b: ToolIdView)
    ensures
        (id_cmp(a, b) == core::cmp::Ordering::Equal) <==> id_eq(a, b),
{
    lemma_seq_cmp_eq(a.uncased_author, b.uncased_author);
    lemma_seq_cmp_eq(a.uncased_name, b.uncased_name);
}

/// Swapping the sides of the comparison swaps `Less` and `Greater`: the
/// order is asymmetric.
pub proof fn lemma_id_cmp_antisym(a: ToolIdView, b: ToolIdView)
    ensures
        (id_cmp(a, b) == core::cmp::Ordering::Less) <==> (id_cmp(b, a)
            == core::cmp::Ordering::Greater),
{
    lemma_seq_cmp_eq(a.uncased_author, b.uncased_author);
    lemma_seq_cmp_eq(b.uncased_author, a.uncased_author);
    lemma_seq_cmp_antisym(a.uncased_author, b.uncased_author);
    lemma_seq_cmp_antisym(b.uncased_author, a.uncased_author);
    lemma_seq_cmp_antisym(a.uncased_name, b.uncased_name);
    lemma_seq_cmp_antisym(b.uncased_name, a.uncased_name);
}

/// The comparison is transitive in `Less`: together with
/// [`lemma_id_cmp_eq`] and [`lemma_id_cmp_antisym`] it is a strict total
/// order consistent with case-insensitive tuple comparison of
/// (author, name).
pub proof fn lemma_id_cmp_trans(a: ToolIdView, b: ToolIdView, c: ToolIdView)
    requires
        id_cmp(a, b) == core::cmp::Ordering::Less,
        id_cmp(b, c) == core::cmp::Ordering::Less,
    ensures
        id_cmp(a, c) == core::cmp::Ordering::Less,
{
    lemma_seq_cmp_eq(a.uncased_author, b.uncased_author);
    lemma_seq_cmp_eq(b.uncased_author, c.uncased_author);
    lemma_seq_cmp_eq(a.uncased_author, c.uncased_author);
    if seq_cmp(a.uncased_author, b.uncased_author) == core::cmp::Ordering::Equal {
        if seq_cmp(b.uncased_author, c.uncased_author) == core::cmp::Ordering::Equal {
            lemma_seq_cmp_trans(a.uncased_name, b.uncased_name, c.uncased_name);
        }
    } else if seq_cmp(b.uncased_author, c.uncased_author) == core::cmp::Ordering::Equal {
    } else {
        lemma_seq_cmp_trans(a.uncased_author, b.uncased_author, c.uncased_author);
    }
}

} // verus!
