//! Small string operations used by the handlers, with their meaning stated
//! over sequences of characters.
use vstd::prelude::*;
use vstd::string::*;

verus! {

/// `s` without `prefix` when `s` starts with it; `s` unchanged otherwise.
pub open spec fn strip_prefix_spec(s: Seq<char>, prefix: Seq<char>) -> Seq<char> {
    if prefix.len() <= s.len() && s.subrange(0, prefix.len() as int) == prefix {
        s.subrange(prefix.len() as int, s.len() as int)
    } else {
        s
    }
}

/// `s` starts with `prefix`.
pub open spec fn starts_with(s: Seq<char>, prefix: Seq<char>) -> bool {
    prefix.len() <= s.len() && s.subrange(0, prefix.len() as int) == prefix
}

/// Removing a prefix that stands at the front leaves exactly what follows
/// it; otherwise nothing is removed.
pub proof fn lemma_strip_prefix_shape(s: Seq<char>, prefix: Seq<char>)
    ensures
        starts_with(s, prefix) ==> s == prefix + strip_prefix_spec(s, prefix),
        !starts_with(s, prefix) ==> strip_prefix_spec(s, prefix) == s,
        starts_with(prefix + s, prefix),
        strip_prefix_spec(prefix + s, prefix) == s,
{
    if starts_with(s, prefix) {
        assert(s =~= prefix + s.subrange(prefix.len() as int, s.len() as int));
    }
    let t = prefix + s;
    assert(t.subrange(0, prefix.len() as int) =~= prefix);
    assert(t.subrange(prefix.len() as int, t.len() as int) =~= s);
}

/// `s` with every trailing occurrence of `c` removed.
pub open spec fn trim_end_char_spec(s: Seq<char>, c: char) -> Seq<char>
    decreases s.len(),
{
    if s.len() > 0 && s.last() == c {
        trim_end_char_spec(s.drop_last(), c)
    } else {
        s
    }
}

/// Removing trailing `c` leaves a prefix of `s` that does not end with `c`.
pub proof fn lemma_trim_end_char_shape(s: Seq<char>, c: char)
    ensures
        trim_end_char_spec(s, c).len() <= s.len(),
        trim_end_char_spec(s, c) == s.subrange(0, trim_end_char_spec(s, c).len() as int),
        trim_end_char_spec(s, c).len() > 0 ==> trim_end_char_spec(s, c).last() != c,
        forall|i: int|
            trim_end_char_spec(s, c).len() <= i < s.len() ==> #[trigger] s[i] == c,
    decreases s.len(),
{
    if s.len() > 0 && s.last() == c {
        lemma_trim_end_char_shape(s.drop_last(), c);
        let t = trim_end_char_spec(s.drop_last(), c);
        assert(s.drop_last().subrange(0, t.len() as int) =~= s.subrange(0, t.len() as int));
        assert forall|i: int| t.len() <= i < s.len() implies #[trigger] s[i] == c by {
            if i < s.len() - 1 {
                assert(s.drop_last()[i] == s[i]);
            }
        }
    } else {
        assert(s.subrange(0, s.len() as int) =~= s);
    }
}

/// Trimming trailing `c` twice gives the same text as trimming it once.
pub proof fn lemma_trim_end_char_idempotent(s: Seq<char>, c: char)
    ensures
        trim_end_char_spec(trim_end_char_spec(s, c), c) == trim_end_char_spec(s, c),
{
    lemma_trim_end_char_shape(s, c);
}

/// Trimming trailing `c` from a prefix of `s` that keeps everything up to the
/// last character other than `c` gives the same text as trimming `s`.
proof fn lemma_trim_end_char_prefix(s: Seq<char>, c: char, k: int)
    requires
        0 <= k <= s.len(),
        forall|i: int| k <= i < s.len() ==> #[trigger] s[i] == c,
    ensures
        trim_end_char_spec(s.subrange(0, k), c) == trim_end_char_spec(s, c),
    decreases s.len() - k,
{
    if k < s.len() {
        lemma_trim_end_char_prefix(s, c, k + 1);
        let t = s.subrange(0, k + 1);
        assert(t.last() == c);
        assert(t.drop_last() =~= s.subrange(0, k));
    } else {
        assert(s.subrange(0, k) =~= s);
    }
}

/// Whether two strings hold the same characters.
pub fn str_eq(a: &str, b: &str) -> (r: bool)
    ensures
        r == (a@ == b@),
{
    let x = a.to_owned();
    let y = b.to_owned();
    x == y
}

/// A copy of `s` without `prefix` when `s` starts with it.
pub fn strip_prefix(s: &str, prefix: &str) -> (r: String)
    ensures
        r@ == strip_prefix_spec(s@, prefix@),
        starts_with(s@, prefix@) ==> s@ == prefix@ + r@,
        !starts_with(s@, prefix@) ==> r@ == s@,
{
    proof {
        lemma_strip_prefix_shape(s@, prefix@);
    }
    let n = s.unicode_len();
    let m = prefix.unicode_len();
    if m > n {
        return s.to_owned();
    }
    let mut i: usize = 0;
    while i < m
        invariant
            i <= m,
            m <= n,
            m == prefix@.len(),
            n == s@.len(),
            forall|j: int| 0 <= j < i ==> s@[j] == prefix@[j],
        decreases m - i,
    {
        if s.get_char(i) != prefix.get_char(i) {
            assert(s@.subrange(0, m as int)[i as int] != prefix@[i as int]);
            return s.to_owned();
        }
        i = i + 1;
    }
    assert(s@.subrange(0, m as int) =~= prefix@);
    s.substring_char(m, n).to_owned()
}

/// A copy of `s` with every trailing `c` removed.
pub fn trim_end_char(s: &str, c: char) -> (r: String)
    ensures
        r@ == trim_end_char_spec(s@, c),
        r@.len() <= s@.len(),
        r@ == s@.subrange(0, r@.len() as int),
        forall|i: int| r@.len() <= i < s@.len() ==> #[trigger] s@[i] == c,
        r@.len() > 0 ==> r@.last() != c,
{
    proof {
        lemma_trim_end_char_shape(s@, c);
    }
    let n = s.unicode_len();
    let mut k = n;
    while k > 0
        invariant
            k <= n,
            n == s@.len(),
            forall|i: int| k <= i < n ==> #[trigger] s@[i] == c,
        ensures
            k <= n,
            forall|i: int| k <= i < n ==> #[trigger] s@[i] == c,
            k == 0 || s@[k - 1] != c,
        decreases k,
    {
        if s.get_char(k - 1) != c {
            break;
        }
        k = k - 1;
    }
    proof {
        lemma_trim_end_char_prefix(s@, c, k as int);
        let t = s@.subrange(0, k as int);
        if k > 0 {
            assert(t.last() == s@[k - 1]);
        }
        assert(trim_end_char_spec(t, c) == t);
    }
    s.substring_char(0, k).to_owned()
}

/// `a` followed by `b`.
pub fn join_str(a: &str, b: &str) -> (r: String)
    ensures
        r@ == a@ + b@,
{
    let mut r = a.to_owned();
    r.append(b);
    r
}

} // verus!
