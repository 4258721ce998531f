//! Version comparison used by the desktop update endpoint.
//!
//! A version is compared by its first three dot-separated numeric components
//! after an optional leading `v` and before any `-` (pre-release) or `+`
//! (build metadata) suffix. When either side does not parse that way, the two
//! strings are compared character by character instead.

use vstd::prelude::*;
use crate::text::chars_of;

verus! {

// ---------------------------------------------------------------------------
// Specification
// ---------------------------------------------------------------------------

/// Index of the first `c` in `s`, or `s.len()` when `c` does not occur.
pub open spec fn first_index_of(s: Seq<char>, c: char) -> int
    decreases s.len(),
{
    if s.len() == 0 {
        0
    } else if s[0] == c {
        0
    } else {
        1 + first_index_of(s.drop_first(), c)
    }
}

/// Characters that end the numeric core of a version.
pub open spec fn is_suffix_marker(c: char) -> bool {
    c == '-' || c == '+'
}

/// Index of the first `-` or `+` in `s`, or `s.len()` when there is none.
pub open spec fn first_marker_index(s: Seq<char>) -> int
    decreases s.len(),
{
    if s.len() == 0 {
        0
    } else if is_suffix_marker(s[0]) {
        0
    } else {
        1 + first_marker_index(s.drop_first())
    }
}

/// `s` without one leading `v`.
pub open spec fn strip_v(s: Seq<char>) -> Seq<char> {
    if s.len() > 0 && s[0] == 'v' {
        s.drop_first()
    } else {
        s
    }
}

/// The part of a version before any pre-release or build suffix.
pub open spec fn version_core(s: Seq<char>) -> Seq<char> {
    let t = strip_v(s);
    t.take(first_marker_index(t))
}

pub open spec fn is_digit(c: char) -> bool {
    '0' <= c && c <= '9'
}

pub open spec fn digit_value(c: char) -> int {
    (c as int) - ('0' as int)
}

/// Decimal value of a string of digits.
pub open spec fn digits_value(t: Seq<char>) -> int
    decreases t.len(),
{
    if t.len() == 0 {
        0
    } else {
        digits_value(t.drop_last()) * 10 + digit_value(t.last())
    }
}

pub open spec fn all_digits(t: Seq<char>) -> bool {
    forall|i: int| 0 <= i < t.len() ==> is_digit(#[trigger] t[i])
}

/// A `u32` written in decimal: non-empty, digits only, within range.
pub open spec fn decimal_u32(t: Seq<char>) -> Option<u32> {
    if t.len() > 0 && all_digits(t) && digits_value(t) <= u32::MAX {
        Some(digits_value(t) as u32)
    } else {
        None
    }
}

/// The three leading numeric components of a version, if they parse.
///
/// The core is split on `.`; the first three pieces must each be a decimal
/// `u32`, and anything after a third `.` is ignored.
pub open spec fn version_triple(s: Seq<char>) -> Option<(u32, u32, u32)> {
    let core = version_core(s);
    let i1 = first_index_of(core, '.');
    if i1 >= core.len() {
        None
    } else {
        let r1 = core.skip(i1 + 1);
        let i2 = first_index_of(r1, '.');
        if i2 >= r1.len() {
            None
        } else {
            let r2 = r1.skip(i2 + 1);
            let i3 = first_index_of(r2, '.');
            match (decimal_u32(core.take(i1)), decimal_u32(r1.take(i2)), decimal_u32(r2.take(i3))) {
                (Some(a), Some(b), Some(c)) => Some((a, b, c)),
                _ => None,
            }
        }
    }
}

/// Lexicographic order on triples.
pub open spec fn triple_less(x: (u32, u32, u32), y: (u32, u32, u32)) -> bool {
    x.0 < y.0 || (x.0 == y.0 && (x.1 < y.1 || (x.1 == y.1 && x.2 < y.2)))
}

/// Lexicographic order on strings, by character code.
pub open spec fn text_less(a: Seq<char>, b: Seq<char>) -> bool
    decreases a.len(),
{
    if b.len() == 0 {
        false
    } else if a.len() == 0 {
        true
    } else if a[0] != b[0] {
        (a[0] as int) < (b[0] as int)
    } else {
        text_less(a.drop_first(), b.drop_first())
    }
}

/// Whether the `server` version strictly beats the `client` version.
pub open spec fn version_newer(server: Seq<char>, client: Seq<char>) -> bool {
    match (version_triple(server), version_triple(client)) {
        (Some(s), Some(c)) => triple_less(c, s),
        _ => text_less(client, server),
    }
}

// ---------------------------------------------------------------------------
// Lemmas
// ---------------------------------------------------------------------------

proof fn lemma_first_index_of(s: Seq<char>, c: char, k: int)
    requires
        0 <= k <= s.len(),
        k == s.len() || s[k] == c,
        forall|j: int| 0 <= j < k ==> s[j] != c,
    ensures
        first_index_of(s, c) == k,
    decreases s.len(),
{
    if s.len() > 0 && k > 0 {
        lemma_first_index_of(s.drop_first(), c, k - 1);
    }
}

proof fn lemma_first_index_of_bounds(s: Seq<char>, c: char)
    ensures
        0 <= first_index_of(s, c) <= s.len(),
        first_index_of(s, c) < s.len() ==> s[first_index_of(s, c)] == c,
        forall|j: int| 0 <= j < first_index_of(s, c) ==> s[j] != c,
    decreases s.len(),
{
    if s.len() > 0 && s[0] != c {
        lemma_first_index_of_bounds(s.drop_first(), c);
        assert forall|j: int| 0 <= j < first_index_of(s, c) implies s[j] != c by {
            if j > 0 {
                assert(s[j] == s.drop_first()[j - 1]);
            }
        }
    }
}

proof fn lemma_first_marker_index(s: Seq<char>, k: int)
    requires
        0 <= k <= s.len(),
        k == s.len() || is_suffix_marker(s[k]),
        forall|j: int| 0 <= j < k ==> !is_suffix_marker(s[j]),
    ensures
        first_marker_index(s) == k,
    decreases s.len(),
{
    if s.len() > 0 && k > 0 {
        lemma_first_marker_index(s.drop_first(), k - 1);
    }
}

proof fn lemma_digits_value_prefix(t: Seq<char>, k: int)
    requires
        0 <= k <= t.len(),
        all_digits(t),
    ensures
        0 <= digits_value(t.take(k)) <= digits_value(t),
    decreases t.len(),
{
    if k < t.len() {
        let d = t.drop_last();
        assert(all_digits(d)) by {
            assert forall|i: int| 0 <= i < d.len() implies is_digit(#[trigger] d[i]) by {
                assert(d[i] == t[i]);
            }
        }
        lemma_digits_value_prefix(d, k);
        assert(d.take(k) =~= t.take(k));
        assert(is_digit(t[t.len() - 1]));
    } else {
        assert(t.take(k) =~= t);
        lemma_digits_value_nonneg(t);
    }
}

proof fn lemma_digits_value_nonneg(t: Seq<char>)
    requires
        all_digits(t),
    ensures
        digits_value(t) >= 0,
    decreases t.len(),
{
    if t.len() > 0 {
        let d = t.drop_last();
        assert(all_digits(d)) by {
            assert forall|i: int| 0 <= i < d.len() implies is_digit(#[trigger] d[i]) by {
                assert(d[i] == t[i]);
            }
        }
        lemma_digits_value_nonneg(d);
        assert(is_digit(t[t.len() - 1]));
    }
}

proof fn lemma_text_less_irreflexive(a: Seq<char>)
    ensures
        !text_less(a, a),
    decreases a.len(),
{
    if a.len() > 0 {
        lemma_text_less_irreflexive(a.drop_first());
    }
}

proof fn lemma_text_less_asymmetric(a: Seq<char>, b: Seq<char>)
    ensures
        text_less(a, b) ==> !text_less(b, a),
    decreases a.len(),
{
    if a.len() > 0 && b.len() > 0 && a[0] == b[0] {
        lemma_text_less_asymmetric(a.drop_first(), b.drop_first());
    }
}

proof fn lemma_text_less_transitive(a: Seq<char>, b: Seq<char>, c: Seq<char>)
    requires
        text_less(a, b),
        text_less(b, c),
    ensures
        text_less(a, c),
    decreases a.len(),
{
    if a.len() > 0 && b.len() > 0 && c.len() > 0 && a[0] == b[0] && b[0] == c[0] {
        lemma_text_less_transitive(a.drop_first(), b.drop_first(), c.drop_first());
    }
}

/// The first `-`/`+` of `w + [m] + x` is at the end of `w` when `w` has none.
proof fn lemma_marker_after_clean_prefix(w: Seq<char>, m: char, x: Seq<char>)
    requires
        is_suffix_marker(m),
        forall|j: int| 0 <= j < w.len() ==> !is_suffix_marker(w[j]),
    ensures
        first_marker_index(w + seq![m] + x) == w.len(),
        (w + seq![m] + x).take(w.len() as int) =~= w,
{
    let s = w + seq![m] + x;
    assert forall|j: int| 0 <= j < w.len() implies !is_suffix_marker(s[j]) by {
        assert(s[j] == w[j]);
    }
    assert(s[w.len() as int] == m);
    lemma_first_marker_index(s, w.len() as int);
}

proof fn lemma_marker_index_clean(w: Seq<char>)
    requires
        forall|j: int| 0 <= j < w.len() ==> !is_suffix_marker(w[j]),
    ensures
        first_marker_index(w) == w.len(),
{
    lemma_first_marker_index(w, w.len() as int);
}

/// A version's core is unchanged by appending a pre-release or build suffix.
proof fn lemma_core_ignores_suffix(v: Seq<char>, m: char, x: Seq<char>)
    requires
        is_suffix_marker(m),
        forall|j: int| 0 <= j < v.len() ==> !is_suffix_marker(v[j]),
    ensures
        version_core(v + seq![m] + x) == version_core(v),
{
    let s = v + seq![m] + x;
    if v.len() > 0 && v[0] == 'v' {
        let w = v.drop_first();
        assert(strip_v(s) =~= w + seq![m] + x);
        assert(strip_v(v) == w);
        assert forall|j: int| 0 <= j < w.len() implies !is_suffix_marker(w[j]) by {
            assert(w[j] == v[j + 1]);
        }
        lemma_marker_after_clean_prefix(w, m, x);
        lemma_marker_index_clean(w);
        assert(w.take(w.len() as int) =~= w);
    } else {
        if v.len() == 0 {
            assert(s[0] == m);
        } else {
            assert(s[0] == v[0]);
        }
        assert(strip_v(s) == s);
        assert(strip_v(v) == v);
        lemma_marker_after_clean_prefix(v, m, x);
        lemma_marker_index_clean(v);
        assert(v.take(v.len() as int) =~= v);
    }
}

// ---------------------------------------------------------------------------
// Laws
// ---------------------------------------------------------------------------

/// No version is newer than itself.
pub proof fn law_is_newer_irreflexive(v: Seq<char>)
    ensures
        !version_newer(v, v),
{
    lemma_text_less_irreflexive(v);
}

/// Two versions are never each newer than the other.
pub proof fn law_is_newer_asymmetric(a: Seq<char>, b: Seq<char>)
    ensures
        version_newer(a, b) ==> !version_newer(b, a),
{
    lemma_text_less_asymmetric(a, b);
    lemma_text_less_asymmetric(b, a);
}

/// "Newer than" is transitive among versions that all parse as triples, and
/// among versions none of which parses.
pub proof fn law_is_newer_transitive(a: Seq<char>, b: Seq<char>, c: Seq<char>)
    requires
        version_triple(a) is Some == version_triple(b) is Some,
        version_triple(b) is Some == version_triple(c) is Some,
        version_newer(a, b),
        version_newer(b, c),
    ensures
        version_newer(a, c),
{
    if version_triple(a) is None {
        lemma_text_less_transitive(c, b, a);
    }
}

/// Appending a pre-release (`-...`) or build (`+...`) suffix to a version that
/// has none does not change its parsed triple.
pub proof fn law_suffix_does_not_change_triple(v: Seq<char>, m: char, x: Seq<char>)
    requires
        is_suffix_marker(m),
        forall|j: int| 0 <= j < v.len() ==> !is_suffix_marker(v[j]),
    ensures
        version_triple(v + seq![m] + x) == version_triple(v),
{
    lemma_core_ignores_suffix(v, m, x);
}

/// Between well-formed versions, a pre-release or build suffix on the client
/// side does not change whether the server version is newer.
pub proof fn law_client_suffix_is_ignored(server: Seq<char>, client: Seq<char>, m: char, x: Seq<char>)
    requires
        is_suffix_marker(m),
        forall|j: int| 0 <= j < client.len() ==> !is_suffix_marker(client[j]),
        version_triple(server) is Some,
        version_triple(client) is Some,
    ensures
        version_newer(server, client + seq![m] + x) == version_newer(server, client),
{
    law_suffix_does_not_change_triple(client, m, x);
}

/// One leading `v` is ignored when parsing a version.
pub proof fn law_leading_v_is_ignored(s: Seq<char>)
    requires
        s.len() == 0 || s[0] != 'v',
    ensures
        version_triple(seq!['v'] + s) == version_triple(s),
{
    let t = seq!['v'] + s;
    assert(t.drop_first() =~= s);
    assert(strip_v(s) == s);
}

// ---------------------------------------------------------------------------
// Executable code
// ---------------------------------------------------------------------------

/// Position of the first `c` in `v[lo..hi]`, or `hi`.
fn index_of_between(v: &Vec<char>, c: char, lo: usize, hi: usize) -> (r: usize)
    requires
        lo <= hi <= v@.len(),
    ensures
        lo <= r <= hi,
        r - lo == first_index_of(v@.subrange(lo as int, hi as int), c),
{
    let mut i = lo;
    while i < hi && v[i] != c
        invariant
            lo <= i <= hi,
            hi <= v@.len(),
            forall|j: int| lo <= j < i ==> v@[j] != c,
        decreases hi - i,
    {
        i = i + 1;
    }
    proof {
        let s = v@.subrange(lo as int, hi as int);
        assert forall|j: int| 0 <= j < i - lo implies s[j] != c by {
            assert(s[j] == v@[lo + j]);
        }
        lemma_first_index_of(s, c, i - lo);
    }
    i
}

/// Position of the first `-` or `+` in `v[lo..hi]`, or `hi`.
fn marker_index_between(v: &Vec<char>, lo: usize, hi: usize) -> (r: usize)
    requires
        lo <= hi <= v@.len(),
    ensures
        lo <= r <= hi,
        r - lo == first_marker_index(v@.subrange(lo as int, hi as int)),
{
    let mut i = lo;
    while i < hi && v[i] != '-' && v[i] != '+'
        invariant
            lo <= i <= hi,
            hi <= v@.len(),
            forall|j: int| lo <= j < i ==> !is_suffix_marker(v@[j]),
        decreases hi - i,
    {
        i = i + 1;
    }
    proof {
        let s = v@.subrange(lo as int, hi as int);
        assert forall|j: int| 0 <= j < i - lo implies !is_suffix_marker(s[j]) by {
            assert(s[j] == v@[lo + j]);
        }
        lemma_first_marker_index(s, i - lo);
    }
    i
}

/// Parses `v[lo..hi]` as a decimal `u32`.
fn parse_decimal_between(v: &Vec<char>, lo: usize, hi: usize) -> (r: Option<u32>)
    requires
        lo <= hi <= v@.len(),
    ensures
        r == decimal_u32(v@.subrange(lo as int, hi as int)),
{
    let ghost t = v@.subrange(lo as int, hi as int);
    if lo == hi {
        return None;
    }
    let mut acc: u64 = 0;
    let mut i = lo;
    while i < hi
        invariant
            lo <= i <= hi,
            hi <= v@.len(),
            t == v@.subrange(lo as int, hi as int),
            all_digits(v@.subrange(lo as int, i as int)),
            acc == digits_value(v@.subrange(lo as int, i as int)),
            acc <= u32::MAX,
        decreases hi - i,
    {
        let c = v[i];
        let ghost p = v@.subrange(lo as int, i as int);
        let ghost q = v@.subrange(lo as int, i + 1);
        assert(q.drop_last() =~= p);
        assert(q.last() == c);
        assert(t[i - lo] == c);
        if !('0' <= c && c <= '9') {
            assert(!all_digits(t));
            return None;
        }
        let d: u64 = ((c as u32) - ('0' as u32)) as u64;
        acc = acc * 10 + d;
        i = i + 1;
        assert(all_digits(q)) by {
            assert forall|j: int| 0 <= j < q.len() implies is_digit(#[trigger] q[j]) by {
                if j < p.len() {
                    assert(q[j] == p[j]);
                }
            }
        }
        if acc > 0xffff_ffffu64 {
            proof {
                if all_digits(t) {
                    lemma_digits_value_prefix(t, (i - lo) as int);
                    assert(t.take((i - lo) as int) =~= q);
                }
            }
            return None;
        }
    }
    assert(v@.subrange(lo as int, i as int) =~= t);
    Some(acc as u32)
}

/// Parses the three leading numeric components of a version.
pub fn parse_version(s: &str) -> (r: Option<(u32, u32, u32)>)
    ensures
        r == version_triple(s@),
{
    let cs = chars_of(s);
    let n = cs.len();
    let start: usize = if n > 0 && cs[0] == 'v' { 1 } else { 0 };
    let ghost t = strip_v(s@);
    assert(t =~= cs@.subrange(start as int, n as int));
    let end = marker_index_between(&cs, start, n);
    let ghost core = version_core(s@);
    assert(core =~= cs@.subrange(start as int, end as int));
    let i1 = index_of_between(&cs, '.', start, end);
    if i1 == end {
        return None;
    }
    let ghost r1 = core.skip(i1 - start + 1);
    assert(r1 =~= cs@.subrange(i1 + 1, end as int));
    assert(core.take(i1 - start) =~= cs@.subrange(start as int, i1 as int));
    let i2 = index_of_between(&cs, '.', i1 + 1, end);
    if i2 == end {
        return None;
    }
    let ghost r2 = r1.skip(i2 - (i1 + 1) + 1);
    assert(r2 =~= cs@.subrange(i2 + 1, end as int));
    assert(r1.take(i2 - (i1 + 1)) =~= cs@.subrange(i1 + 1, i2 as int));
    let i3 = index_of_between(&cs, '.', i2 + 1, end);
    assert(r2.take(i3 - (i2 + 1)) =~= cs@.subrange(i2 + 1, i3 as int));
    let a = parse_decimal_between(&cs, start, i1);
    let b = parse_decimal_between(&cs, i1 + 1, i2);
    let c = parse_decimal_between(&cs, i2 + 1, i3);
    match (a, b, c) {
        (Some(x), Some(y), Some(z)) => Some((x, y, z)),
        _ => None,
    }
}

/// Whether `a` sorts strictly before `b`, character by character.
pub fn text_is_less(a: &str, b: &str) -> (r: bool)
    ensures
        r == text_less(a@, b@),
{
    let av = chars_of(a);
    let bv = chars_of(b);
    let mut i: usize = 0;
    assert(a@.skip(0) =~= a@);
    assert(b@.skip(0) =~= b@);
    while i < av.len() && i < bv.len()
        invariant
            av@ == a@,
            bv@ == b@,
            i <= av@.len(),
            i <= bv@.len(),
            text_less(a@, b@) == text_less(a@.skip(i as int), b@.skip(i as int)),
        decreases av@.len() - i,
    {
        let ghost sa = a@.skip(i as int);
        let ghost sb = b@.skip(i as int);
        assert(sa[0] == av@[i as int]);
        assert(sb[0] == bv@[i as int]);
        if av[i] != bv[i] {
            return av[i] < bv[i];
        }
        assert(sa.drop_first() =~= a@.skip(i + 1));
        assert(sb.drop_first() =~= b@.skip(i + 1));
        i = i + 1;
    }
    let ghost sa = a@.skip(i as int);
    let ghost sb = b@.skip(i as int);
    if i < bv.len() {
        assert(sa.len() == 0 && sb.len() > 0);
        true
    } else {
        assert(sb.len() == 0);
        false
    }
}

/// Decide whether the server version strictly beats the client version.
///
/// Compares the first three numeric components when both sides parse, and
/// falls back to comparing the raw strings otherwise, so a malformed tag never
/// locks clients out of updates.
pub fn is_newer(server: &str, client: &str) -> (r: bool)
    ensures
        r == version_newer(server@, client@),
{
    match (parse_version(server), parse_version(client)) {
        (Some(s), Some(c)) => {
            s.0 > c.0 || (s.0 == c.0 && (s.1 > c.1 || (s.1 == c.1 && s.2 > c.2)))
        },
        _ => text_is_less(client, server),
    }
}

} // verus!
