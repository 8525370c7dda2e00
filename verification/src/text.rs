//! Text-level model and verified helpers: finding separators, trimming
//! whitespace, ASCII lowercasing and lexicographic comparison, all stated
//! over `Seq<char>` and implemented over `&str`.

use vstd::prelude::*;

use crate::chars::{is_space, is_space_exec, lower_char, lower_char_exec};

verus! {

/// Whether `c` occurs anywhere in `s`.
pub open spec fn has_char(s: Seq<char>, c: char) -> bool {
    exists|i: int| 0 <= i < s.len() && s[i] == c
}

/// Index of the first occurrence of `c` in `s`, or `-1` when `c` does not
/// occur.
pub open spec fn find(s: Seq<char>, c: char) -> int
    decreases s.len(),
{
    if s.len() == 0 {
        -1
    } else if s[0] == c {
        0
    } else if find(s.drop_first(), c) < 0 {
        -1
    } else {
        find(s.drop_first(), c) + 1
    }
}

/// `find` returns the least index holding `c`, or `-1` when there is none.
pub proof fn lemma_find_props(s: Seq<char>, c: char)
    ensures
        find(s, c) >= 0 ==> find(s, c) < s.len() && s[find(s, c)] == c,
        find(s, c) >= 0 ==> forall|k: int| 0 <= k < find(s, c) ==> s[k] != c,
        find(s, c) < 0 ==> !has_char(s, c),
    decreases s.len(),
{
    if s.len() > 0 && s[0] != c {
        lemma_find_props(s.drop_first(), c);
        let t = s.drop_first();
        if find(t, c) < 0 {
            assert forall|i: int| 0 <= i < s.len() implies s[i] != c by {
                if i > 0 {
                    assert(t[i - 1] == s[i]);
                    assert(!has_char(t, c));
                }
            }
        } else {
            assert(s[find(s, c)] == t[find(t, c)]);
            assert forall|k: int| 0 <= k < find(s, c) implies s[k] != c by {
                if k > 0 {
                    assert(s[k] == t[k - 1]);
                }
            }
        }
    }
}

/// `find` is characterised by being an occurrence with no earlier one.
pub proof fn lemma_find_is_first(s: Seq<char>, c: char, i: int)
    requires
        0 <= i < s.len(),
        s[i] == c,
        forall|k: int| 0 <= k < i ==> s[k] != c,
    ensures
        find(s, c) == i,
{
    lemma_find_props(s, c);
    let f = find(s, c);
    if f < 0 {
        assert(has_char(s, c));
    } else if f < i {
        assert(s[f] == c);
    } else if f > i {
        assert(s[i] != c);
    }
}

/// ASCII lowercasing of a character sequence, character by character.
pub open spec fn lower(s: Seq<char>) -> Seq<char> {
    Seq::new(s.len(), |i: int| lower_char(s[i]))
}

/// Number of leading whitespace characters of `s`.
pub open spec fn leading_spaces(s: Seq<char>) -> int
    decreases s.len(),
{
    if s.len() > 0 && is_space(s[0]) {
        1 + leading_spaces(s.drop_first())
    } else {
        0
    }
}

/// Number of trailing whitespace characters of `s`.
pub open spec fn trailing_spaces(s: Seq<char>) -> int
    decreases s.len(),
{
    if s.len() > 0 && is_space(s.last()) {
        1 + trailing_spaces(s.drop_last())
    } else {
        0
    }
}

/// `s` with leading whitespace removed.
pub open spec fn trim_start(s: Seq<char>) -> Seq<char> {
    s.subrange(leading_spaces(s), s.len() as int)
}

/// `s` with trailing whitespace removed.
pub open spec fn trim_end(s: Seq<char>) -> Seq<char> {
    s.subrange(0, s.len() - trailing_spaces(s))
}

/// `s` with whitespace removed from both ends.
pub open spec fn trim(s: Seq<char>) -> Seq<char> {
    trim_end(trim_start(s))
}

/// The leading-space count is a valid index bound: every character before it
/// is whitespace and the character at it, if any, is not.
pub proof fn lemma_leading_spaces(s: Seq<char>)
    ensures
        0 <= leading_spaces(s) <= s.len(),
        forall|k: int| 0 <= k < leading_spaces(s) ==> is_space(s[k]),
        leading_spaces(s) < s.len() ==> !is_space(s[leading_spaces(s)]),
    decreases s.len(),
{
    if s.len() > 0 && is_space(s[0]) {
        let t = s.drop_first();
        lemma_leading_spaces(t);
        assert forall|k: int| 0 <= k < leading_spaces(s) implies is_space(s[k]) by {
            if k > 0 {
                assert(s[k] == t[k - 1]);
            }
        }
        if leading_spaces(s) < s.len() {
            assert(s[leading_spaces(s)] == t[leading_spaces(t)]);
        }
    }
}

/// The trailing-space count is a valid bound from the right: every character
/// at or after `len - trailing_spaces` is whitespace and the one just before,
/// if any, is not.
pub proof fn lemma_trailing_spaces(s: Seq<char>)
    ensures
        0 <= trailing_spaces(s) <= s.len(),
        forall|k: int| s.len() - trailing_spaces(s) <= k < s.len() ==> is_space(s[k]),
        trailing_spaces(s) < s.len() ==> !is_space(s[s.len() - trailing_spaces(s) - 1]),
    decreases s.len(),
{
    if s.len() > 0 && is_space(s.last()) {
        let t = s.drop_last();
        lemma_trailing_spaces(t);
        assert forall|k: int| s.len() - trailing_spaces(s) <= k < s.len() implies is_space(
            s[k],
        ) by {
            if k < s.len() - 1 {
                assert(s[k] == t[k]);
            }
        }
        if trailing_spaces(s) < s.len() {
            assert(s[s.len() - trailing_spaces(s) - 1] == t[t.len() - trailing_spaces(t) - 1]);
        }
    }
}

/// A prefix of whitespace characters stopped by a non-space pins down the
/// leading-space count.
pub proof fn lemma_leading_spaces_is(s: Seq<char>, i: int)
    requires
        0 <= i <= s.len(),
        forall|k: int| 0 <= k < i ==> is_space(s[k]),
        i < s.len() ==> !is_space(s[i]),
    ensures
        leading_spaces(s) == i,
    decreases s.len(),
{
    if i == 0 {
        if s.len() > 0 {
            assert(!is_space(s[0]));
        }
    } else {
        let t = s.drop_first();
        assert(is_space(s[0]));
        assert forall|k: int| 0 <= k < i - 1 implies is_space(t[k]) by {
            assert(t[k] == s[k + 1]);
        }
        if i - 1 < t.len() {
            assert(t[i - 1] == s[i]);
        }
        lemma_leading_spaces_is(t, i - 1);
    }
}

/// A suffix of whitespace characters preceded by a non-space pins down the
/// trailing-space count.
pub proof fn lemma_trailing_spaces_is(s: Seq<char>, j: int)
    requires
        0 <= j <= s.len(),
        forall|k: int| j <= k < s.len() ==> is_space(s[k]),
        j > 0 ==> !is_space(s[j - 1]),
    ensures
        trailing_spaces(s) == s.len() - j,
    decreases s.len(),
{
    if j == s.len() {
        if s.len() > 0 {
            assert(!is_space(s.last()));
        }
    } else {
        let t = s.drop_last();
        assert(is_space(s.last()));
        assert forall|k: int| j <= k < t.len() implies is_space(t[k]) by {
            assert(t[k] == s[k]);
        }
        if j > 0 {
            assert(t[j - 1] == s[j - 1]);
        }
        lemma_trailing_spaces_is(t, j);
    }
}

/// A trimmed sequence neither starts nor ends with whitespace, and trimming
/// it again changes nothing.
pub proof fn lemma_trim_props(s: Seq<char>)
    ensures
        trim(s).len() > 0 ==> !is_space(trim(s)[0]),
        trim(s).len() > 0 ==> !is_space(trim(s).last()),
        trim(trim(s)) == trim(s),
{
    lemma_leading_spaces(s);
    let t = trim_start(s);
    lemma_trailing_spaces(t);
    let u = trim_end(t);
    if u.len() > 0 {
        assert(u[0] == t[0]);
        assert(t[0] == s[leading_spaces(s)]);
        assert(u.last() == t[t.len() - trailing_spaces(t) - 1]);
    }
    lemma_leading_spaces_is(u, 0);
    assert(trim_start(u) =~= u);
    lemma_trailing_spaces_is(u, u.len() as int);
    assert(trim_end(u) =~= u);
    assert(trim(u) == trim_end(trim_start(u)));
}

/// A valid author or name segment: non-empty and free of the `/` separator.
pub open spec fn valid_segment(s: Seq<char>) -> bool {
    s.len() > 0 && !has_char(s, '/')
}

/// Lexicographic three-way comparison of character sequences by code point,
/// a prefix ordering before shorter sequences.
pub open spec fn seq_cmp(a: Seq<char>, b: Seq<char>) -> core::cmp::Ordering
    decreases a.len(),
{
    if a.len() == 0 && b.len() == 0 {
        core::cmp::Ordering::Equal
    } else if a.len() == 0 {
        core::cmp::Ordering::Less
    } else if b.len() == 0 {
        core::cmp::Ordering::Greater
    } else if a[0] < b[0] {
        core::cmp::Ordering::Less
    } else if b[0] < a[0] {
        core::cmp::Ordering::Greater
    } else {
        seq_cmp(a.drop_first(), b.drop_first())
    }
}

/// The trimmed sequence is a contiguous subrange of the original, starting
/// at the leading-space count.
pub proof fn lemma_trim_subrange(s: Seq<char>)
    ensures
        0 <= leading_spaces(s),
        leading_spaces(s) + trim(s).len() <= s.len(),
        trim(s) == s.subrange(leading_spaces(s), leading_spaces(s) + trim(s).len()),
{
    lemma_leading_spaces(s);
    let t = trim_start(s);
    lemma_trailing_spaces(t);
    assert(trim(s) =~= s.subrange(leading_spaces(s), leading_spaces(s) + trim(s).len()));
}

/// Trimming introduces no character that the original lacked.
pub proof fn lemma_trim_no_new_chars(s: Seq<char>, c: char)
    ensures
        has_char(trim(s), c) ==> has_char(s, c),
{
    lemma_trim_subrange(s);
    if has_char(trim(s), c) {
        let i = choose|i: int| 0 <= i < trim(s).len() && trim(s)[i] == c;
        assert(s[i + leading_spaces(s)] == c);
    }
}

/// Lowercasing maps subranges to subranges.
pub proof fn lemma_lower_subrange(s: Seq<char>, i: int, j: int)
    requires
        0 <= i <= j <= s.len(),
    ensures
        lower(s.subrange(i, j)) == lower(s).subrange(i, j),
{
    assert(lower(s.subrange(i, j)) =~= lower(s).subrange(i, j));
}

/// Lowercasing moves no whitespace boundary on the left.
pub proof fn lemma_leading_spaces_lower(s: Seq<char>)
    ensures
        leading_spaces(lower(s)) == leading_spaces(s),
    decreases s.len(),
{
    if s.len() > 0 {
        crate::chars::lemma_lower_char_keeps_space(s[0]);
        if is_space(s[0]) {
            lemma_leading_spaces_lower(s.drop_first());
            assert(lower(s).drop_first() =~= lower(s.drop_first()));
        }
    }
}

/// Lowercasing moves no whitespace boundary on the right.
pub proof fn lemma_trailing_spaces_lower(s: Seq<char>)
    ensures
        trailing_spaces(lower(s)) == trailing_spaces(s),
    decreases s.len(),
{
    if s.len() > 0 {
        crate::chars::lemma_lower_char_keeps_space(s.last());
        assert(lower(s).last() == lower_char(s.last()));
        if is_space(s.last()) {
            lemma_trailing_spaces_lower(s.drop_last());
            assert(lower(s).drop_last() =~= lower(s.drop_last()));
        }
    }
}

/// Trimming and lowercasing commute.
pub proof fn lemma_trim_lower_commute(s: Seq<char>)
    ensures
        trim(lower(s)) == lower(trim(s)),
{
    lemma_leading_spaces_lower(s);
    lemma_leading_spaces(s);
    lemma_lower_subrange(s, leading_spaces(s), s.len() as int);
    let t = trim_start(s);
    assert(trim_start(lower(s)) == lower(t));
    lemma_trailing_spaces_lower(t);
    lemma_trailing_spaces(t);
    lemma_lower_subrange(t, 0, t.len() - trailing_spaces(t));
    assert(trim_end(lower(t)) == lower(trim_end(t)));
}

/// For a character that lowercasing neither produces nor removes, the first
/// occurrence is the same before and after lowercasing.
pub proof fn lemma_find_lower(s: Seq<char>, c: char)
    requires
        forall|x: char| lower_char(x) == c <==> x == c,
    ensures
        find(lower(s), c) == find(s, c),
    decreases s.len(),
{
    if s.len() > 0 {
        assert(lower(s)[0] == lower_char(s[0]));
        if s[0] != c {
            lemma_find_lower(s.drop_first(), c);
            assert(lower(s).drop_first() =~= lower(s.drop_first()));
        }
    }
}

/// Neither the separator `/` nor the provider-tag colon is touched by
/// lowercasing, so their first occurrences survive it.
pub proof fn lemma_separators_survive_lower(s: Seq<char>)
    ensures
        find(lower(s), '/') == find(s, '/'),
        find(lower(s), ':') == find(s, ':'),
{
    assert forall|x: char| lower_char(x) == '/' <==> x == '/' by {
        if 'A' <= x && x <= 'Z' {
            assert(lower_char(x) != '/');
        }
    }
    assert forall|x: char| lower_char(x) == ':' <==> x == ':' by {
        if 'A' <= x && x <= 'Z' {
            assert(lower_char(x) != ':');
        }
    }
    lemma_find_lower(s, '/');
    lemma_find_lower(s, ':');
}

/// `seq_cmp` reports `Equal` exactly on equal sequences.
pub proof fn lemma_seq_cmp_eq(a: Seq<char>, b: Seq<char>)
    ensures
        (seq_cmp(a, b) == core::cmp::Ordering::Equal) <==> a == b,
    decreases a.len(),
{
    if a.len() == 0 && b.len() == 0 {
        assert(a =~= b);
    } else if a.len() > 0 && b.len() > 0 && a[0] == b[0] {
        lemma_seq_cmp_eq(a.drop_first(), b.drop_first());
        if a.drop_first() == b.drop_first() {
            assert forall|i: int| 0 <= i < a.len() implies a[i] == b[i] by {
                if i > 0 {
                    assert(a[i] == a.drop_first()[i - 1]);
                    assert(b[i] == b.drop_first()[i - 1]);
                }
            }
            assert(a =~= b);
        }
        if a == b {
            assert(a.drop_first() =~= b.drop_first());
        }
    }
}

/// Swapping the arguments of `seq_cmp` swaps `Less` and `Greater`.
pub proof fn lemma_seq_cmp_antisym(a: Seq<char>, b: Seq<char>)
    ensures
        (seq_cmp(a, b) == core::cmp::Ordering::Less) <==> (seq_cmp(b, a)
            == core::cmp::Ordering::Greater),
    decreases a.len(),
{
    if a.len() > 0 && b.len() > 0 && a[0] == b[0] {
        lemma_seq_cmp_antisym(a.drop_first(), b.drop_first());
    }
}

/// `seq_cmp` is transitive in `Less`.
pub proof fn lemma_seq_cmp_trans(a: Seq<char>, b: Seq<char>, c: Seq<char>)
    requires
        seq_cmp(a, b) == core::cmp::Ordering::Less,
        seq_cmp(b, c) == core::cmp::Ordering::Less,
    ensures
        seq_cmp(a, c) == core::cmp::Ordering::Less,
    decreases a.len() + b.len() + c.len(),
{
    if a.len() > 0 && b.len() > 0 && c.len() > 0 {
        if a[0] == b[0] && b[0] == c[0] {
            lemma_seq_cmp_trans(a.drop_first(), b.drop_first(), c.drop_first());
        }
    }
}

/// Relies on `String::push`: appends exactly the given character at the end.
#[verifier::external_body]
fn push_char(s: &mut String, c: char)
    ensures
        final(s)@ == old(s)@.push(c),
{
    s.push(c);
}

/// Index of the first occurrence of `c` in `s`, if any.
pub fn find_char(s: &str, c: char) -> (r: Option<usize>)
    ensures
        match r {
            Some(i) => find(s@, c) == i as int,
            None => find(s@, c) < 0,
        },
{
    let n = s.unicode_len();
    let mut i: usize = 0;
    while i < n
        invariant
            i <= n,
            n == s@.len(),
            forall|k: int| 0 <= k < i ==> s@[k] != c,
        decreases n - i,
    {
        if s.get_char(i) == c {
            proof {
                lemma_find_is_first(s@, c, i as int);
            }
            return Some(i);
        }
        i = i + 1;
    }
    proof {
        lemma_find_props(s@, c);
        if find(s@, c) >= 0 {
            assert(s@[find(s@, c)] == c);
        }
    }
    None
}

/// `s` with whitespace removed from both ends.
pub fn trim_str<'a>(s: &'a str) -> (r: &'a str)
    ensures
        r@ == trim(s@),
{
    let n = s.unicode_len();
    let mut i: usize = 0;
    loop
        invariant
            i <= n,
            n == s@.len(),
            forall|k: int| 0 <= k < i ==> is_space(s@[k]),
        ensures
            i <= n,
            forall|k: int| 0 <= k < i ==> is_space(s@[k]),
            i < n ==> !is_space(s@[i as int]),
        decreases n - i,
    {
        if i < n && is_space_exec(s.get_char(i)) {
            i = i + 1;
        } else {
            break ;
        }
    }
    let mut j: usize = n;
    loop
        invariant
            i <= j <= n,
            n == s@.len(),
            forall|k: int| j <= k < n ==> is_space(s@[k]),
            i < n ==> !is_space(s@[i as int]),
        ensures
            i <= j <= n,
            forall|k: int| j <= k < n ==> is_space(s@[k]),
            j > i ==> !is_space(s@[j - 1]),
        decreases j - i,
    {
        if j > i && is_space_exec(s.get_char(j - 1)) {
            j = j - 1;
        } else {
            break ;
        }
    }
    proof {
        lemma_leading_spaces_is(s@, i as int);
        let t = trim_start(s@);
        assert forall|k: int| j - i <= k < t.len() implies is_space(t[k]) by {
            assert(t[k] == s@[k + i]);
        }
        if j > i {
            assert(t[j - i - 1] == s@[j - 1]);
        }
        lemma_trailing_spaces_is(t, j - i);
        assert(trim(s@) =~= s@.subrange(i as int, j as int));
    }
    s.substring_char(i, j)
}

/// The ASCII-lowercased copy of `s`.
pub fn to_lower(s: &str) -> (r: String)
    ensures
        r@ == lower(s@),
{
    let n = s.unicode_len();
    let mut r = String::new();
    let mut i: usize = 0;
    while i < n
        invariant
            i <= n,
            n == s@.len(),
            r@.len() == i,
            forall|k: int| 0 <= k < i ==> r@[k] == lower_char(s@[k]),
        decreases n - i,
    {
        let c = lower_char_exec(s.get_char(i));
        push_char(&mut r, c);
        i = i + 1;
    }
    proof {
        assert(r@ =~= lower(s@));
    }
    r
}

/// The validity predicate on trimmed segments: rejects an empty segment and
/// one containing the `/` separator.
pub fn is_invalid_identifier(s: &str) -> (r: bool)
    ensures
        r == !valid_segment(s@),
{
    if s.unicode_len() == 0 {
        return true;
    }
    proof {
        lemma_find_props(s@, '/');
    }
    match find_char(s, '/') {
        Some(_) => {
            proof {
                assert(s@[find(s@, '/')] == '/');
            }
            true
        },
        None => false,
    }
}

/// Whether two string slices hold the same characters.
pub fn str_eq(a: &str, b: &str) -> (r: bool)
    ensures
        r == (a@ == b@),
{
    let n = a.unicode_len();
    if n != b.unicode_len() {
        return false;
    }
    let mut i: usize = 0;
    while i < n
        invariant
            i <= n,
            n == a@.len(),
            n == b@.len(),
            forall|k: int| 0 <= k < i ==> a@[k] == b@[k],
        decreases n - i,
    {
        if a.get_char(i) != b.get_char(i) {
            return false;
        }
        i = i + 1;
    }
    proof {
        assert(a@ =~= b@);
    }
    true
}

/// Lexicographic three-way comparison of two string slices, proved equal to
/// [`seq_cmp`] on their character sequences.
pub fn cmp_str(a: &str, b: &str) -> (r: core::cmp::Ordering)
    ensures
        r == seq_cmp(a@, b@),
{
    let na = a.unicode_len();
    let nb = b.unicode_len();
    let mut i: usize = 0;
    proof {
        assert(a@.subrange(0, na as int) =~= a@);
        assert(b@.subrange(0, nb as int) =~= b@);
    }
    while i < na && i < nb
        invariant
            i <= na,
            i <= nb,
            na == a@.len(),
            nb == b@.len(),
            seq_cmp(a@, b@) == seq_cmp(
                a@.subrange(i as int, na as int),
                b@.subrange(i as int, nb as int),
            ),
        decreases na - i,
    {
        let ca = a.get_char(i);
        let cb = b.get_char(i);
        let ghost sa = a@.subrange(i as int, na as int);
        let ghost sb = b@.subrange(i as int, nb as int);
        if ca < cb {
            proof {
                assert(sa[0] == ca && sb[0] == cb);
            }
            return core::cmp::Ordering::Less;
        }
        if cb < ca {
            proof {
                assert(sa[0] == ca && sb[0] == cb);
            }
            return core::cmp::Ordering::Greater;
        }
        proof {
            assert(sa[0] == ca && sb[0] == cb);
            assert(sa.drop_first() =~= a@.subrange(i + 1, na as int));
            assert(sb.drop_first() =~= b@.subrange(i + 1, nb as int));
        }
        i = i + 1;
    }
    proof {
        let sa = a@.subrange(i as int, na as int);
        let sb = b@.subrange(i as int, nb as int);
        assert(sa.len() == 0 || sb.len() == 0);
    }
    if i < nb {
        core::cmp::Ordering::Less
    } else if i < na {
        core::cmp::Ordering::Greater
    } else {
        core::cmp::Ordering::Equal
    }
}

} // verus!
