//! Verified text utilities: character counting, colon-field splitting,
//! substring search, surrounding-character stripping and path joining.

use vstd::prelude::*;

verus! {

use vstd::string::*;

/// Number of occurrences of `c` in `s`.
pub open spec fn count_char(s: Seq<char>, c: char) -> nat
    decreases s.len(),
{
    if s.len() == 0 {
        0
    } else {
        (if s[0] == c {
            1nat
        } else {
            0nat
        }) + count_char(s.drop_first(), c)
    }
}

/// Appending one character raises the count by one exactly when it is `c`.
pub proof fn lemma_count_char_push(s: Seq<char>, c: char, x: char)
    ensures
        count_char(s.push(x), c) == count_char(s, c) + (if x == c {
            1nat
        } else {
            0nat
        }),
    decreases s.len(),
{
    if s.len() == 0 {
        assert(s.push(x)[0] == x);
        assert(s.push(x).drop_first() =~= Seq::<char>::empty());
        assert(count_char(s.push(x).drop_first(), c) == 0);
    } else {
        assert(s.push(x)[0] == s[0]);
        assert(s.push(x).drop_first() =~= s.drop_first().push(x));
        lemma_count_char_push(s.drop_first(), c, x);
    }
}

/// `needle` occurs contiguously somewhere inside `hay`.
pub open spec fn contains_seq(hay: Seq<char>, needle: Seq<char>) -> bool {
    exists|k: int|
        0 <= k && k + needle.len() <= hay.len() && #[trigger] hay.subrange(k, k + needle.len())
            == needle
}

/// Substring search; the result says exactly whether `needle` occurs in `hay`.
pub fn str_contains(hay: &str, needle: &str) -> (r: bool)
    ensures
        r == contains_seq(hay@, needle@),
{
    let hn: usize = hay.unicode_len();
    let nn: usize = needle.unicode_len();
    if nn > hn {
        return false;
    }
    let mut k: usize = 0;
    while k <= hn - nn
        invariant
            hn == hay@.len(),
            nn == needle@.len(),
            nn <= hn,
            k <= hn - nn + 1,
            forall|kk: int|
                0 <= kk < k ==> #[trigger] hay@.subrange(kk, kk + needle@.len()) != needle@,
        decreases hn + 1 - k,
    {
        let mut j: usize = 0;
        while j < nn && hay.get_char(k + j) == needle.get_char(j)
            invariant
                hn == hay@.len(),
                nn == needle@.len(),
                k + nn <= hn,
                j <= nn,
                forall|jj: int| 0 <= jj < j ==> hay@[k + jj] == needle@[jj],
            decreases nn - j,
        {
            j = j + 1;
        }
        if j == nn {
            assert(hay@.subrange(k as int, k as int + needle@.len()) =~= needle@);
            return true;
        }
        assert(hay@.subrange(k as int, k as int + needle@.len()) != needle@) by {
            if hay@.subrange(k as int, k as int + needle@.len()) == needle@ {
                assert(hay@.subrange(k as int, k as int + needle@.len())[j as int] == needle@[j as int]);
            }
        }
        k = k + 1;
    }
    assert(forall|kk: int|
        0 <= kk && kk + needle@.len() <= hay@.len() ==> #[trigger] hay@.subrange(
            kk,
            kk + needle@.len(),
        ) != needle@);
    false
}

/// `s` without its leading run of `c`.
pub open spec fn drop_leading(s: Seq<char>, c: char) -> Seq<char>
    decreases s.len(),
{
    if s.len() > 0 && s[0] == c {
        drop_leading(s.drop_first(), c)
    } else {
        s
    }
}

/// `s` without its trailing run of `c`.
pub open spec fn drop_trailing(s: Seq<char>, c: char) -> Seq<char>
    decreases s.len(),
{
    if s.len() > 0 && s[s.len() - 1] == c {
        drop_trailing(s.drop_last(), c)
    } else {
        s
    }
}

/// `s` without any leading or trailing runs of `c`.
pub open spec fn strip_outer(s: Seq<char>, c: char) -> Seq<char> {
    drop_trailing(drop_leading(s, c), c)
}

proof fn lemma_drop_leading_subrange(s: Seq<char>, c: char, lo: int)
    requires
        0 <= lo <= s.len(),
        forall|j: int| 0 <= j < lo ==> s[j] == c,
        lo < s.len() ==> s[lo] != c,
    ensures
        drop_leading(s, c) =~= s.subrange(lo, s.len() as int),
    decreases lo,
{
    if lo == 0 {
        assert(drop_leading(s, c) =~= s.subrange(0, s.len() as int));
    } else {
        assert(s[0] == c);
        let t = s.drop_first();
        assert(forall|j: int| 0 <= j < lo - 1 ==> t[j] == c);
        lemma_drop_leading_subrange(t, c, lo - 1);
        assert(t.subrange(lo - 1, t.len() as int) =~= s.subrange(lo, s.len() as int));
    }
}

proof fn lemma_drop_trailing_subrange(s: Seq<char>, c: char, hi: int)
    requires
        0 <= hi <= s.len(),
        forall|j: int| hi <= j < s.len() ==> s[j] == c,
        hi > 0 ==> s[hi - 1] != c,
    ensures
        drop_trailing(s, c) =~= s.subrange(0, hi),
    decreases s.len() - hi,
{
    if hi == s.len() {
        assert(drop_trailing(s, c) =~= s.subrange(0, hi));
    } else {
        assert(s[s.len() - 1] == c);
        let t = s.drop_last();
        assert(forall|j: int| hi <= j < t.len() ==> t[j] == c);
        lemma_drop_trailing_subrange(t, c, hi);
        assert(t.subrange(0, hi) =~= s.subrange(0, hi));
    }
}

/// Removes every copy of `c` at the start and at the end of `s`, leaving the
/// interior untouched.
pub fn strip_surrounding(s: &str, c: char) -> (r: String)
    ensures
        r@ == strip_outer(s@, c),
{
    let n: usize = s.unicode_len();
    let mut lo: usize = 0;
    while lo < n && s.get_char(lo) == c
        invariant
            n == s@.len(),
            lo <= n,
            forall|j: int| 0 <= j < lo ==> s@[j] == c,
        decreases n - lo,
    {
        lo = lo + 1;
    }
    let mut hi: usize = n;
    while hi > lo && s.get_char(hi - 1) == c
        invariant
            n == s@.len(),
            lo <= hi <= n,
            forall|j: int| hi <= j < n ==> s@[j] == c,
        decreases hi,
    {
        hi = hi - 1;
    }
    let r = s.substring_char(lo, hi).to_owned();
    proof {
        lemma_drop_leading_subrange(s@, c, lo as int);
        let t = s@.subrange(lo as int, s@.len() as int);
        assert(forall|j: int| hi - lo <= j < t.len() ==> t[j] == c);
        lemma_drop_trailing_subrange(t, c, hi - lo);
        assert(t.subrange(0, hi - lo) =~= s@.subrange(lo as int, hi as int));
    }
    r
}

/// `a` and `b` joined with a single slash separator.
pub fn path_join(a: &str, b: &str) -> (r: String)
    ensures
        r@ == a@ + "/"@ + b@,
{
    let r = a.to_owned().concat("/").concat(b);
    r
}

/// Splits `s` into exactly four colon-separated fields. Returns the fields
/// when `s` holds exactly three colons, and nothing otherwise; on success the
/// fields are colon-free and reassemble to `s`.
pub fn split4(s: &str) -> (r: Option<(String, String, String, String)>)
    ensures
        r is Some <==> count_char(s@, ':') == 3,
        r matches Some(p) ==> {
            &&& s@ == p.0@ + seq![':'] + p.1@ + seq![':'] + p.2@ + seq![':'] + p.3@
            &&& count_char(p.0@, ':') == 0
            &&& count_char(p.1@, ':') == 0
            &&& count_char(p.2@, ':') == 0
            &&& count_char(p.3@, ':') == 0
        },
{
    let n: usize = s.unicode_len();
    let mut ps: Vec<usize> = Vec::new();
    let mut i: usize = 0;
    while i < n
        invariant
            n == s@.len(),
            i <= n,
            count_char(s@.subrange(0, i as int), ':') == ps@.len(),
            forall|k: int| 0 <= k < ps@.len() ==> ps@[k] < i && s@[ps@[k] as int] == ':',
            forall|k1: int, k2: int| 0 <= k1 < k2 < ps@.len() ==> ps@[k1] < ps@[k2],
            forall|j: int| 0 <= j < i && s@[j] == ':' ==> ps@.contains(j as usize),
        decreases n - i,
    {
        proof {
            assert(s@.subrange(0, i + 1) =~= s@.subrange(0, i as int).push(s@[i as int]));
            lemma_count_char_push(s@.subrange(0, i as int), ':', s@[i as int]);
        }
        if s.get_char(i) == ':' {
            let ghost ps0 = ps@;
            ps.push(i);
            proof {
                assert(ps@ == ps0.push(i));
                assert forall|j: int| 0 <= j < i + 1 && s@[j] == ':' implies ps@.contains(
                    j as usize,
                ) by {
                    if j == i {
                        assert(ps@[ps@.len() - 1] == i);
                    } else {
                        assert(ps0.contains(j as usize));
                        let k = choose|k: int| 0 <= k < ps0.len() && ps0[k] == j as usize;
                        assert(ps@[k] == j as usize);
                    }
                }
            }
        }
        i = i + 1;
    }
    proof {
        assert(s@.subrange(0, n as int) =~= s@);
    }
    if ps.len() != 3 {
        return None;
    }
    let p1: usize = ps[0];
    let p2: usize = ps[1];
    let p3: usize = ps[2];
    assert(p1 < p2 < p3 < n);
    let a = s.substring_char(0, p1).to_owned();
    let b = s.substring_char(p1 + 1, p2).to_owned();
    let c = s.substring_char(p2 + 1, p3).to_owned();
    let d = s.substring_char(p3 + 1, n).to_owned();
    proof {
        assert forall|j: int| 0 <= j < n && s@[j] == ':' implies j == p1 || j == p2
            || j == p3 by {
            assert(ps@.contains(j as usize));
            let k = choose|k: int| 0 <= k < ps@.len() && ps@[k] == j as usize;
            assert(k == 0 || k == 1 || k == 2);
        }
        assert(s@ =~= a@ + seq![':'] + b@ + seq![':'] + c@ + seq![':'] + d@);
        lemma_count_zero_of_colon_free(a@);
        lemma_count_zero_of_colon_free(b@);
        lemma_count_zero_of_colon_free(c@);
        lemma_count_zero_of_colon_free(d@);
    }
    Some((a, b, c, d))
}

/// A sequence with no colon at any index has colon-count zero.
proof fn lemma_count_zero_of_colon_free(s: Seq<char>)
    requires
        forall|j: int| 0 <= j < s.len() ==> s[j] != ':',
    ensures
        count_char(s, ':') == 0,
    decreases s.len(),
{
    if s.len() > 0 {
        lemma_count_zero_of_colon_free(s.drop_first());
    }
}

} // verus!
