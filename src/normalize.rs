//! Removal of timestamps from a raw WHOIS response.
//!
//! A timestamp is what the pattern `[0-9]*-[0-9]*-[0-9]*.*Z` matches: two
//! dashes, each preceded by a (possibly empty) run of ASCII digits, then any
//! characters of the same line up to and including a `Z`.  As `.*` is greedy,
//! a match runs to the last `Z` of its line.
use vstd::prelude::*;

verus! {

/// A character of the class `[0-9]`.
pub open spec fn is_ascii_digit(c: char) -> bool {
    '0' <= c && c <= '9'
}

/// `s` starts with `[0-9]*-[0-9]*-`, whose first dash is at `a` and second at `b`.
pub open spec fn dash_pair(s: Seq<char>, a: int, b: int) -> bool {
    &&& 0 <= a < b < s.len()
    &&& s[a] == '-'
    &&& s[b] == '-'
    &&& forall|i: int| 0 <= i < a ==> is_ascii_digit(#[trigger] s[i])
    &&& forall|i: int| a < i < b ==> is_ascii_digit(#[trigger] s[i])
}

/// `s[z]` is a `Z` with no line break before it.
pub open spec fn first_line_z(s: Seq<char>, z: int) -> bool {
    &&& 0 <= z < s.len()
    &&& s[z] == 'Z'
    &&& forall|i: int| 0 <= i < z ==> #[trigger] s[i] != '\n'
}

/// A timestamp match begins at the first character of `s`.
pub open spec fn starts_with_timestamp(s: Seq<char>) -> bool {
    exists|a: int, b: int, z: int|
        #[trigger] dash_pair(s, a, b) && b < z && #[trigger] first_line_z(s, z)
}

/// One past the last first-line `Z` among the first `n` characters of `s`,
/// or 0 when there is none.
pub open spec fn line_z_end(s: Seq<char>, n: nat) -> nat
    decreases n,
{
    if n == 0 {
        0
    } else if first_line_z(s, n - 1) {
        n
    } else {
        line_z_end(s, (n - 1) as nat)
    }
}

/// Length of the (greedy) timestamp match at the start of `s`.
pub open spec fn timestamp_len(s: Seq<char>) -> nat {
    line_z_end(s, s.len())
}

/// No timestamp match begins anywhere in `s`.
pub open spec fn timestamp_free(s: Seq<char>) -> bool {
    forall|i: int| 0 <= i < s.len() ==> !starts_with_timestamp(#[trigger] s.skip(i))
}

/// `s` with every timestamp removed: matches are searched for from left to
/// right, and the search resumes after each removed match.
pub open spec fn strip_timestamps(s: Seq<char>) -> Seq<char>
    decreases s.len(),
{
    if s.len() == 0 {
        s
    } else if starts_with_timestamp(s) {
        proof {
            lemma_timestamp_len(s);
        }
        strip_timestamps(s.skip(timestamp_len(s) as int))
    } else {
        seq![s[0]] + strip_timestamps(s.skip(1))
    }
}

pub proof fn lemma_line_z_end(s: Seq<char>, n: nat)
    requires
        n <= s.len(),
    ensures
        line_z_end(s, n) <= n,
        line_z_end(s, n) > 0 ==> first_line_z(s, line_z_end(s, n) - 1),
        forall|z: int| line_z_end(s, n) <= z < n ==> !#[trigger] first_line_z(s, z),
    decreases n,
{
    if n > 0 {
        lemma_line_z_end(s, (n - 1) as nat);
    }
}

/// A timestamp at the start of `s` is non-empty, ends with the last `Z` of
/// the first line, and leaves no `Z` on that line after it.
pub proof fn lemma_timestamp_len(s: Seq<char>)
    requires
        starts_with_timestamp(s),
    ensures
        0 < timestamp_len(s) <= s.len(),
        first_line_z(s, timestamp_len(s) - 1),
        forall|z: int| timestamp_len(s) <= z < s.len() ==> !#[trigger] first_line_z(s, z),
{
    let (a, b, z) = choose|a: int, b: int, z: int|
        #[trigger] dash_pair(s, a, b) && b < z && #[trigger] first_line_z(s, z);
    lemma_line_z_end(s, s.len());
}

/// A timestamp-free text is left as it is.
pub proof fn lemma_free_text_kept(s: Seq<char>)
    requires
        timestamp_free(s),
    ensures
        strip_timestamps(s) == s,
    decreases s.len(),
{
    if s.len() > 0 {
        assert(s.skip(0) =~= s);
        assert(!starts_with_timestamp(s.skip(0)));
        let rest = s.skip(1);
        assert forall|i: int| 0 <= i < rest.len() implies !starts_with_timestamp(
            #[trigger] rest.skip(i),
        ) by {
            assert(rest.skip(i) =~= s.skip(i + 1));
        }
        lemma_free_text_kept(rest);
        assert(seq![s[0]] + rest =~= s);
    }
}

/// Every first-line `Z` of the stripped text stands where it stood in `s`,
/// and nothing before it was removed.
pub proof fn lemma_first_line_kept(s: Seq<char>, z: int)
    requires
        first_line_z(strip_timestamps(s), z),
    ensures
        z < s.len(),
        forall|i: int| 0 <= i <= z ==> #[trigger] strip_timestamps(s)[i] == s[i],
    decreases s.len(),
{
    if s.len() == 0 {
    } else if starts_with_timestamp(s) {
        lemma_timestamp_len(s);
        let e = timestamp_len(s) as int;
        let x = s.skip(e);
        lemma_first_line_kept(x, z);
        assert(first_line_z(s, e + z)) by {
            assert forall|i: int| 0 <= i < e + z implies #[trigger] s[i] != '\n' by {
                if i >= e {
                    assert(s[i] == x[i - e]);
                    assert(x[i - e] == strip_timestamps(x)[i - e]);
                }
            }
        }
    } else {
        let rest = s.skip(1);
        let t = strip_timestamps(s);
        assert(t == seq![s[0]] + strip_timestamps(rest));
        if z > 0 {
            assert(first_line_z(strip_timestamps(rest), z - 1)) by {
                assert forall|i: int| 0 <= i < z - 1 implies #[trigger] strip_timestamps(rest)[i]
                    != '\n' by {
                    assert(strip_timestamps(rest)[i] == t[i + 1]);
                }
            }
            lemma_first_line_kept(rest, z - 1);
            assert forall|i: int| 0 <= i <= z implies #[trigger] t[i] == s[i] by {
                if i > 0 {
                    assert(t[i] == strip_timestamps(rest)[i - 1]);
                }
            }
        }
    }
}

/// No timestamp is left in the stripped text.
pub proof fn lemma_stripped_is_free(s: Seq<char>)
    ensures
        timestamp_free(strip_timestamps(s)),
    decreases s.len(),
{
    if s.len() == 0 {
    } else if starts_with_timestamp(s) {
        lemma_timestamp_len(s);
        lemma_stripped_is_free(s.skip(timestamp_len(s) as int));
    } else {
        let rest = s.skip(1);
        let r = strip_timestamps(rest);
        let t = strip_timestamps(s);
        assert(t == seq![s[0]] + r);
        lemma_stripped_is_free(rest);
        assert forall|i: int| 0 <= i < t.len() implies !starts_with_timestamp(
            #[trigger] t.skip(i),
        ) by {
            if i > 0 {
                assert(t.skip(i) =~= r.skip(i - 1));
            } else {
                assert(t.skip(0) =~= t);
                if starts_with_timestamp(t) {
                    let (a, b, z) = choose|a: int, b: int, z: int|
                        #[trigger] dash_pair(t, a, b) && b < z && #[trigger] first_line_z(t, z);
                    assert(first_line_z(r, z - 1)) by {
                        assert forall|k: int| 0 <= k < z - 1 implies #[trigger] r[k] != '\n' by {
                            assert(r[k] == t[k + 1]);
                        }
                    }
                    lemma_first_line_kept(rest, z - 1);
                    assert forall|k: int| 0 <= k <= z implies #[trigger] t[k] == s[k] by {
                        if k > 0 {
                            assert(t[k] == r[k - 1]);
                        }
                    }
                    assert(dash_pair(s, a, b)) by {
                        assert forall|k: int| 0 <= k < a implies is_ascii_digit(#[trigger] s[k]) by {
                            assert(t[k] == s[k]);
                        }
                        assert forall|k: int| a < k < b implies is_ascii_digit(#[trigger] s[k]) by {
                            assert(t[k] == s[k]);
                        }
                        assert(t[a] == s[a] && t[b] == s[b]);
                    }
                    assert(first_line_z(s, z)) by {
                        assert forall|k: int| 0 <= k < z implies #[trigger] s[k] != '\n' by {
                            assert(t[k] == s[k]);
                        }
                        assert(t[z] == s[z]);
                    }
                }
            }
        }
    }
}

/// Normalizing is idempotent: stripping an already stripped text changes nothing.
pub proof fn lemma_normalize_idempotent(s: Seq<char>)
    ensures
        strip_timestamps(strip_timestamps(s)) == strip_timestamps(s),
{
    lemma_stripped_is_free(s);
    lemma_free_text_kept(strip_timestamps(s));
}

/// A text `p + m + q` holding exactly one timestamp, `m`, loses exactly `m`:
/// no match begins inside `p`, `m` is the whole match that begins after `p`,
/// and `q` holds none.  The rest is kept verbatim, so the length drops by
/// the length of `m`.
pub proof fn lemma_normalize_removes_only_the_match(p: Seq<char>, m: Seq<char>, q: Seq<char>)
    requires
        forall|i: int| 0 <= i < p.len() ==> !starts_with_timestamp(#[trigger] (p + m + q).skip(i)),
        starts_with_timestamp(m + q),
        timestamp_len(m + q) == m.len(),
        timestamp_free(q),
    ensures
        strip_timestamps(p + m + q) == p + q,
        strip_timestamps(p + m + q).len() == (p + m + q).len() - m.len(),
    decreases p.len(),
{
    let s = p + m + q;
    if p.len() == 0 {
        assert(s =~= m + q);
        assert((m + q).skip(m.len() as int) =~= q);
        lemma_free_text_kept(q);
        assert(p + q =~= q);
    } else {
        assert(s.skip(0) =~= s);
        let p1 = p.skip(1);
        assert(s.skip(1) =~= p1 + m + q);
        assert forall|i: int| 0 <= i < p1.len() implies !starts_with_timestamp(
            #[trigger] (p1 + m + q).skip(i),
        ) by {
            assert((p1 + m + q).skip(i) =~= s.skip(i + 1));
        }
        lemma_normalize_removes_only_the_match(p1, m, q);
        assert(seq![p[0]] + (p1 + q) =~= p + q);
    }
}

/// Relies on `regex::Regex::new`, which accepts this fixed pattern, and on
/// `Regex::replace_all`, which replaces with nothing every non-overlapping
/// leftmost-first match, searching from left to right; `[0-9]` takes ASCII
/// digits, `.` any character but a line feed, and `*` is greedy.
#[verifier::external_body]
fn remove_timestamp_matches(raw: &str) -> (r: String)
    ensures
        r@ == strip_timestamps(raw@),
{
    regex::Regex::new(r"[0-9]*-[0-9]*-[0-9]*.*Z").unwrap().replace_all(raw, "").into_owned()
}

/// The raw response with every timestamp removed and all else kept.
pub fn normalize(raw: &str) -> (r: String)
    ensures
        r@ == strip_timestamps(raw@),
        timestamp_free(r@),
{
    let r = remove_timestamp_matches(raw);
    proof {
        lemma_stripped_is_free(raw@);
    }
    r
}

} // verus!
