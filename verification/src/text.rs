//! Verified text primitives shared by the dictionary transform, speaker
//! attribution and provider dispatch: literal substring replacement and
//! decimal rendering of counters.

use vstd::prelude::*;
use vstd::string::StrSliceExecFns;
use vstd::string::StringExecFns;

verus! {

/// All non-overlapping occurrences of `p` in `t`, scanned left to right,
/// replaced by `r`. An empty pattern leaves the text unchanged.
pub open spec fn replaced(t: Seq<char>, p: Seq<char>, r: Seq<char>) -> Seq<char>
    decreases t.len(),
{
    if p.len() == 0 || t.len() < p.len() {
        t
    } else if t.subrange(0, p.len() as int) == p {
        r + replaced(t.skip(p.len() as int), p, r)
    } else {
        seq![t[0]] + replaced(t.skip(1), p, r)
    }
}

/// `p` matches `t` at position `i`.
pub open spec fn occurs_at(t: Seq<char>, p: Seq<char>, i: int) -> bool {
    &&& 0 <= i
    &&& i + p.len() <= t.len()
    &&& t.subrange(i, i + p.len() as int) == p
}

/// `p` matches nowhere in `t`.
pub open spec fn no_occurrence(t: Seq<char>, p: Seq<char>) -> bool {
    forall|i: int| !occurs_at(t, p, i)
}

/// Replacement is the identity on text that does not contain the pattern.
pub proof fn lemma_replaced_no_occurrence(t: Seq<char>, p: Seq<char>, r: Seq<char>)
    requires
        no_occurrence(t, p),
    ensures
        replaced(t, p, r) == t,
    decreases t.len(),
{
    if p.len() == 0 || t.len() < p.len() {
    } else if t.subrange(0, p.len() as int) == p {
        assert(occurs_at(t, p, 0));
        assert(false);
    } else {
        assert forall|i: int| !occurs_at(t.skip(1), p, i) by {
            if occurs_at(t.skip(1), p, i) {
                assert(t.subrange(i + 1, i + 1 + p.len() as int) =~= t.skip(1).subrange(
                    i,
                    i + p.len() as int,
                ));
                assert(occurs_at(t, p, i + 1));
            }
        }
        lemma_replaced_no_occurrence(t.skip(1), p, r);
        assert(seq![t[0]] + t.skip(1) =~= t);
    }
}

/// Striking an occurring pattern out never lengthens the text.
pub proof fn lemma_replaced_empty_len(t: Seq<char>, p: Seq<char>)
    ensures
        replaced(t, p, Seq::<char>::empty()).len() <= t.len(),
    decreases t.len(),
{
    if p.len() == 0 || t.len() < p.len() {
    } else if t.subrange(0, p.len() as int) == p {
        lemma_replaced_empty_len(t.skip(p.len() as int), p);
    } else {
        lemma_replaced_empty_len(t.skip(1), p);
    }
}

/// Striking a pattern that occurs out strictly shortens the text.
pub proof fn lemma_replaced_empty_shrinks(t: Seq<char>, p: Seq<char>)
    requires
        p.len() > 0,
        !no_occurrence(t, p),
    ensures
        replaced(t, p, Seq::<char>::empty()).len() < t.len(),
    decreases t.len(),
{
    assert(exists|i: int| occurs_at(t, p, i));
    let i = choose|i: int| occurs_at(t, p, i);
    assert(occurs_at(t, p, i));
    if t.len() < p.len() {
        assert(false);
    } else if t.subrange(0, p.len() as int) == p {
        lemma_replaced_empty_len(t.skip(p.len() as int), p);
    } else {
        assert(i != 0);
        assert(t.skip(1).subrange(i - 1, i - 1 + p.len() as int) =~= t.subrange(
            i,
            i + p.len() as int,
        ));
        assert(occurs_at(t.skip(1), p, i - 1));
        lemma_replaced_empty_shrinks(t.skip(1), p);
    }
}

/// The text with the pattern struck out repeatedly, until no occurrence is
/// left — also one that a removal joined together out of fragments.
pub open spec fn purged(t: Seq<char>, p: Seq<char>) -> Seq<char>
    decreases t.len(),
    via purged_via
{
    if p.len() == 0 || no_occurrence(t, p) {
        t
    } else {
        purged(replaced(t, p, Seq::<char>::empty()), p)
    }
}

#[via_fn]
proof fn purged_via(t: Seq<char>, p: Seq<char>) {
    if !(p.len() == 0 || no_occurrence(t, p)) {
        lemma_replaced_empty_shrinks(t, p);
    }
}

/// Nothing of the pattern survives the purge.
pub proof fn lemma_purged_no_occurrence(t: Seq<char>, p: Seq<char>)
    requires
        p.len() > 0,
    ensures
        no_occurrence(purged(t, p), p),
    decreases t.len(),
{
    if !no_occurrence(t, p) {
        lemma_replaced_empty_shrinks(t, p);
        lemma_purged_no_occurrence(replaced(t, p, Seq::<char>::empty()), p);
    }
}

/// Whether `pat` matches `t` at position `i`.
pub(crate) fn matches_at(t: &str, i: usize, pat: &str) -> (b: bool)
    requires
        i + pat@.len() <= t@.len(),
    ensures
        b <==> t@.subrange(i as int, i + pat@.len() as int) == pat@,
{
    let n = t.unicode_len();
    let plen = pat.unicode_len();
    let mut j: usize = 0;
    let mut matched = true;
    while j < plen
        invariant
            n == t@.len(),
            plen == pat@.len(),
            i + plen <= n,
            j <= plen,
            matched ==> forall|k: int| 0 <= k < j ==> t@[i + k] == pat@[k],
            !matched ==> t@.subrange(i as int, i + plen as int) != pat@,
        decreases plen - j,
    {
        if t.get_char(i + j) != pat.get_char(j) {
            proof {
                assert(t@.subrange(i as int, i + plen as int)[j as int] == t@[i + j]);
            }
            matched = false;
        }
        j += 1;
    }
    proof {
        if matched {
            assert(t@.subrange(i as int, i + plen as int) =~= pat@);
        }
    }
    matched
}

/// Whether the pattern occurs anywhere in the text. An empty pattern
/// occurs everywhere.
pub fn contains_pattern(text: &str, pattern: &str) -> (b: bool)
    ensures
        b <==> !no_occurrence(text@, pattern@),
{
    let n = text.unicode_len();
    let plen = pattern.unicode_len();
    if plen == 0 {
        proof {
            assert(text@.subrange(0, 0) =~= pattern@);
            assert(occurs_at(text@, pattern@, 0));
        }
        return true;
    }
    if plen > n {
        return false;
    }
    let mut i: usize = 0;
    while i <= n - plen
        invariant
            n == text@.len(),
            plen == pattern@.len(),
            0 < plen <= n,
            i <= n - plen + 1,
            forall|k: int| 0 <= k < i ==> !occurs_at(text@, pattern@, k),
        decreases n - i,
    {
        if matches_at(text, i, pattern) {
            proof {
                assert(occurs_at(text@, pattern@, i as int));
            }
            return true;
        }
        i += 1;
    }
    false
}

/// Strikes the pattern out repeatedly until no occurrence is left, so a
/// removal cannot leave behind an occurrence joined together out of
/// fragments. An empty pattern leaves the text unchanged.
pub fn purge(text: &str, pattern: &str) -> (r: String)
    ensures
        r@ == purged(text@, pattern@),
{
    let mut cur = text.to_owned();
    if pattern.is_empty() {
        return cur;
    }
    while contains_pattern(cur.as_str(), pattern)
        invariant
            pattern@.len() > 0,
            purged(cur@, pattern@) == purged(text@, pattern@),
        decreases cur@.len(),
    {
        proof {
            lemma_replaced_empty_shrinks(cur@, pattern@);
            reveal_strlit("");
            assert(""@ =~= Seq::<char>::empty());
        }
        cur = replace_all(cur.as_str(), pattern, "");
    }
    cur
}

/// Replaces every non-overlapping occurrence of `pattern` in `text` with
/// `replacement`, scanning left to right.
pub fn replace_all(text: &str, pattern: &str, replacement: &str) -> (res: String)
    ensures
        res@ == replaced(text@, pattern@, replacement@),
{
    let n = text.unicode_len();
    let plen = pattern.unicode_len();
    if plen == 0 || plen > n {
        return text.to_owned();
    }
    let mut res = String::new();
    let mut i: usize = 0;
    let mut start: usize = 0;
    proof {
        assert(text@.skip(0) =~= text@);
        assert(text@.subrange(0, 0) =~= Seq::<char>::empty());
    }
    while i <= n - plen
        invariant
            n == text@.len(),
            plen == pattern@.len(),
            0 < plen <= n,
            start <= i <= n,
            replaced(text@, pattern@, replacement@) == res@ + text@.subrange(
                start as int,
                i as int,
            ) + replaced(text@.skip(i as int), pattern@, replacement@),
        decreases n - i,
    {
        let mut j: usize = 0;
        let mut matched = true;
        while j < plen
            invariant
                n == text@.len(),
                plen == pattern@.len(),
                0 < plen <= n,
                i + plen <= n,
                j <= plen,
                matched ==> forall|k: int| 0 <= k < j ==> text@[i + k] == pattern@[k],
                !matched ==> text@.subrange(i as int, i + plen as int) != pattern@,
            decreases plen - j,
        {
            if text.get_char(i + j) != pattern.get_char(j) {
                proof {
                    assert(text@.subrange(i as int, i + plen as int)[j as int] == text@[i + j]);
                }
                matched = false;
            }
            j += 1;
        }
        let ghost tail = text@.skip(i as int);
        proof {
            assert(tail.subrange(0, plen as int) =~= text@.subrange(i as int, i + plen as int));
        }
        if matched {
            proof {
                assert(text@.subrange(i as int, i + plen as int) =~= pattern@);
                assert(tail.subrange(0, plen as int) == pattern@);
                assert(replaced(tail, pattern@, replacement@) == replacement@ + replaced(
                    tail.skip(plen as int),
                    pattern@,
                    replacement@,
                ));
                assert(tail.skip(plen as int) =~= text@.skip(i + plen));
            }
            res.append(text.substring_char(start, i));
            res.append(replacement);
            i += plen;
            start = i;
            proof {
                assert(text@.subrange(start as int, i as int) =~= Seq::<char>::empty());
                assert(res@ + text@.subrange(start as int, i as int) =~= res@);
            }
        } else {
            proof {
                assert(tail.subrange(0, plen as int) != pattern@);
                assert(tail.len() >= plen);
                assert(replaced(tail, pattern@, replacement@) == seq![tail[0]] + replaced(
                    tail.skip(1),
                    pattern@,
                    replacement@,
                ));
                assert(tail.skip(1) =~= text@.skip(i + 1));
                assert(text@.subrange(start as int, i + 1) =~= text@.subrange(start as int, i as int)
                    + seq![text@[i as int]]);
                assert(tail[0] == text@[i as int]);
            }
            i += 1;
        }
    }
    proof {
        assert(text@.skip(i as int).len() < plen);
        assert(replaced(text@.skip(i as int), pattern@, replacement@) == text@.skip(i as int));
        assert(text@.subrange(start as int, n as int) =~= text@.subrange(start as int, i as int)
            + text@.skip(i as int));
    }
    res.append(text.substring_char(start, n));
    res
}

/// The character for one decimal digit.
pub open spec fn digit_char(d: int) -> char {
    if d == 0 {
        '0'
    } else if d == 1 {
        '1'
    } else if d == 2 {
        '2'
    } else if d == 3 {
        '3'
    } else if d == 4 {
        '4'
    } else if d == 5 {
        '5'
    } else if d == 6 {
        '6'
    } else if d == 7 {
        '7'
    } else if d == 8 {
        '8'
    } else {
        '9'
    }
}

/// The decimal rendering of a non-negative integer, most significant digit
/// first, with no leading zeros (a lone `0` for zero).
pub open spec fn dec_digits(n: int) -> Seq<char>
    decreases n,
{
    if n < 10 {
        seq![digit_char(n)]
    } else {
        dec_digits(n / 10) + seq![digit_char(n % 10)]
    }
}

pub(crate) fn digit_str(d: u64) -> (r: &'static str)
    requires
        d < 10,
    ensures
        r@ == seq![digit_char(d as int)],
{
    let r: &'static str = if d == 0 {
        "0"
    } else if d == 1 {
        "1"
    } else if d == 2 {
        "2"
    } else if d == 3 {
        "3"
    } else if d == 4 {
        "4"
    } else if d == 5 {
        "5"
    } else if d == 6 {
        "6"
    } else if d == 7 {
        "7"
    } else if d == 8 {
        "8"
    } else {
        "9"
    };
    proof {
        reveal_strlit("0");
        reveal_strlit("1");
        reveal_strlit("2");
        reveal_strlit("3");
        reveal_strlit("4");
        reveal_strlit("5");
        reveal_strlit("6");
        reveal_strlit("7");
        reveal_strlit("8");
        reveal_strlit("9");
        assert(r@ =~= seq![digit_char(d as int)]);
    }
    r
}

/// Renders a counter in decimal.
pub fn u64_to_dec(n: u64) -> (r: String)
    ensures
        r@ == dec_digits(n as int),
    decreases n,
{
    if n < 10 {
        digit_str(n).to_owned()
    } else {
        let prefix = u64_to_dec(n / 10);
        prefix.concat(digit_str(n % 10))
    }
}

} // verus!
