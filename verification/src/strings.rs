//! Verified string utilities the link parser and URL builders rest on:
//! splitting on a separator, substring search, and decimal conversion in
//! both directions.

use vstd::prelude::*;

verus! {

/// The segments of `s` split at every occurrence of `sep`, in order.
/// Splitting the empty sequence yields one empty segment, as `str::split`
/// does.
pub open spec fn split_by(s: Seq<char>, sep: char) -> Seq<Seq<char>>
    decreases s.len(),
{
    if s.len() == 0 {
        seq![Seq::<char>::empty()]
    } else {
        let rest = split_by(s.drop_first(), sep);
        if s[0] == sep {
            seq![Seq::<char>::empty()] + rest
        } else {
            seq![seq![s[0]] + rest[0]] + rest.drop_first()
        }
    }
}

pub proof fn lemma_split_by_len(s: Seq<char>, sep: char)
    ensures
        split_by(s, sep).len() >= 1,
    decreases s.len(),
{
    if s.len() > 0 {
        lemma_split_by_len(s.drop_first(), sep);
    }
}

/// Appending one character to `s` either extends the last segment (for an
/// ordinary character) or opens a fresh empty segment (for the separator).
pub proof fn lemma_split_by_push(s: Seq<char>, sep: char, c: char)
    ensures
        split_by(s, sep).len() >= 1,
        c == sep ==> split_by(s.push(c), sep) == split_by(s, sep).push(Seq::<char>::empty()),
        c != sep ==> split_by(s.push(c), sep) == split_by(s, sep).update(
            split_by(s, sep).len() - 1,
            split_by(s, sep).last().push(c),
        ),
    decreases s.len(),
{
    lemma_split_by_len(s, sep);
    if s.len() == 0 {
        reveal_with_fuel(split_by, 3);
        assert(s =~= Seq::<char>::empty());
        assert(s.push(c).drop_first() =~= Seq::<char>::empty());
        if c == sep {
            assert(split_by(s.push(c), sep) =~~= split_by(s, sep).push(Seq::<char>::empty()));
        } else {
            assert(seq![s.push(c)[0]] + split_by(s.push(c).drop_first(), sep)[0] =~= seq![c]);
            assert(split_by(s.push(c), sep) =~~= split_by(s, sep).update(
                0,
                split_by(s, sep).last().push(c),
            ));
        }
    } else {
        lemma_split_by_push(s.drop_first(), sep, c);
        lemma_split_by_len(s.drop_first(), sep);
        assert(s.push(c).drop_first() =~= s.drop_first().push(c));
        let rest = split_by(s.drop_first(), sep);
        let restc = split_by(s.drop_first().push(c), sep);
        if c == sep {
            if s[0] == sep {
                assert(split_by(s.push(c), sep) =~~= split_by(s, sep).push(Seq::<char>::empty()));
            } else {
                assert(restc[0] == rest[0]);
                assert(restc.drop_first() =~~= rest.drop_first().push(Seq::<char>::empty()));
                assert(split_by(s.push(c), sep) =~~= split_by(s, sep).push(Seq::<char>::empty()));
            }
        } else {
            if s[0] == sep {
                assert(split_by(s.push(c), sep) =~~= split_by(s, sep).update(
                    split_by(s, sep).len() - 1,
                    split_by(s, sep).last().push(c),
                ));
            } else {
                if rest.len() == 1 {
                    assert(restc[0] == rest[0].push(c));
                    assert(split_by(s.push(c), sep) =~= split_by(s, sep).update(
                        split_by(s, sep).len() - 1,
                        split_by(s, sep).last().push(c),
                    ));
                } else {
                    assert(restc[0] == rest[0]);
                    assert(restc.drop_first() =~~= rest.drop_first().update(
                        rest.len() - 2,
                        rest.last().push(c),
                    ));
                    assert(split_by(s.push(c), sep) =~= split_by(s, sep).update(
                        split_by(s, sep).len() - 1,
                        split_by(s, sep).last().push(c),
                    ));
                }
            }
        }
    }
}

/// Splits `s` at every occurrence of `sep`, keeping empty segments.
pub fn split_char(s: &str, sep: char) -> (r: Vec<String>)
    ensures
        r.deep_view() == split_by(s@, sep),
        r.len() >= 1,
{
    let n = s.unicode_len();
    let mut segs: Vec<String> = Vec::new();
    let mut start: usize = 0;
    let mut i: usize = 0;
    proof {
        assert(s@.take(0) =~= Seq::<char>::empty());
        assert(segs.deep_view().push(s@.subrange(0, 0)) =~~= split_by(s@.take(0), sep));
    }
    while i < n
        invariant
            start <= i <= n,
            n == s@.len(),
            segs.deep_view().push(s@.subrange(start as int, i as int)) == split_by(
                s@.take(i as int),
                sep,
            ),
        decreases n - i,
    {
        proof {
            lemma_split_by_push(s@.take(i as int), sep, s@[i as int]);
            assert(s@.take(i as int).push(s@[i as int]) =~= s@.take(i + 1));
        }
        let c = s.get_char(i);
        if c == sep {
            let seg = s.substring_char(start, i).to_owned();
            segs.push(seg);
            start = i + 1;
            proof {
                assert(segs.deep_view().push(s@.subrange(start as int, i + 1)) =~~= split_by(
                    s@.take(i + 1),
                    sep,
                ));
            }
        } else {
            proof {
                assert(segs.deep_view().push(s@.subrange(start as int, i + 1)) =~~= split_by(
                    s@.take(i + 1),
                    sep,
                ));
            }
        }
        i += 1;
    }
    let last = s.substring_char(start, n).to_owned();
    segs.push(last);
    proof {
        assert(s@.take(n as int) =~= s@);
        assert(segs.deep_view() =~~= split_by(s@, sep));
    }
    segs
}

/// A sequence free of the separator splits into itself alone.
pub proof fn lemma_split_no_sep(s: Seq<char>, sep: char)
    requires
        !s.contains(sep),
    ensures
        split_by(s, sep) == seq![s],
    decreases s.len(),
{
    if s.len() == 0 {
        assert(s =~= Seq::<char>::empty());
        assert(split_by(s, sep) =~~= seq![s]);
    } else {
        assert(s[0] != sep);
        assert forall|i: int| 0 <= i < s.drop_first().len() implies s.drop_first()[i] != sep by {
            assert(s.drop_first()[i] == s[i + 1]);
        }
        assert(!s.drop_first().contains(sep));
        lemma_split_no_sep(s.drop_first(), sep);
        assert(seq![s[0]] + s.drop_first() =~= s);
        assert(split_by(s, sep) =~~= seq![s]);
    }
}

/// Splitting distributes over one separator: the segments of
/// `a / b` are the segments of `a` followed by those of `b`.
pub proof fn lemma_split_concat(a: Seq<char>, b: Seq<char>, sep: char)
    ensures
        split_by(a + seq![sep] + b, sep) == split_by(a, sep) + split_by(b, sep),
    decreases a.len(),
{
    let u = a + seq![sep] + b;
    lemma_split_by_len(b, sep);
    if a.len() == 0 {
        assert(a =~= Seq::<char>::empty());
        assert(u[0] == sep);
        assert(u.drop_first() =~= b);
        assert(split_by(u, sep) =~~= split_by(a, sep) + split_by(b, sep));
    } else {
        lemma_split_concat(a.drop_first(), b, sep);
        lemma_split_by_len(a.drop_first(), sep);
        assert(u[0] == a[0]);
        assert(u.drop_first() =~= a.drop_first() + seq![sep] + b);
        if a[0] == sep {
            assert(split_by(u, sep) =~~= split_by(a, sep) + split_by(b, sep));
        } else {
            let ra = split_by(a.drop_first(), sep);
            let rb = split_by(b, sep);
            assert((ra + rb)[0] == ra[0]);
            assert((ra + rb).drop_first() =~~= ra.drop_first() + rb);
            assert(split_by(u, sep) =~~= split_by(a, sep) + split_by(b, sep));
        }
    }
}

/// The segments `segs[lo..hi]` joined with `/`.
pub open spec fn join_slash(segs: Seq<Seq<char>>, lo: int, hi: int) -> Seq<char>
    decreases hi - lo,
{
    if hi <= lo {
        Seq::<char>::empty()
    } else if hi == lo + 1 {
        segs[lo]
    } else {
        join_slash(segs, lo, hi - 1) + seq!['/'] + segs[hi - 1]
    }
}

/// `needle` occurs in `h` starting at position `i`.
pub open spec fn occurs_at(h: Seq<char>, needle: Seq<char>, i: int) -> bool {
    0 <= i && i + needle.len() <= h.len() && h.subrange(i, i + needle.len()) == needle
}

/// `needle` occurs somewhere in `h`.
pub open spec fn has_substring(h: Seq<char>, needle: Seq<char>) -> bool {
    exists|i: int| occurs_at(h, needle, i)
}

/// Substring search by direct comparison at every candidate position.
pub fn str_contains_str(h: &str, needle: &str) -> (r: bool)
    ensures
        r == has_substring(h@, needle@),
{
    let hn = h.unicode_len();
    let nn = needle.unicode_len();
    if nn == 0 {
        proof {
            assert(h@.subrange(0, 0) =~= needle@);
            assert(occurs_at(h@, needle@, 0));
        }
        return true;
    }
    if nn > hn {
        proof {
            assert(forall|i: int| !occurs_at(h@, needle@, i));
        }
        return false;
    }
    let mut i: usize = 0;
    while i <= hn - nn
        invariant
            1 <= nn <= hn,
            hn == h@.len(),
            nn == needle@.len(),
            i <= hn - nn + 1,
            forall|k: int| 0 <= k < i ==> !occurs_at(h@, needle@, k),
        decreases hn - nn + 1 - i,
    {
        let mut j: usize = 0;
        let mut mismatch = false;
        while j < nn
            invariant
                nn <= hn,
                hn == h@.len(),
                nn == needle@.len(),
                i + nn <= hn,
                j <= nn,
                !mismatch ==> forall|k: int| 0 <= k < j ==> h@[i + k] == needle@[k],
                mismatch ==> !occurs_at(h@, needle@, i as int),
            decreases nn - j,
        {
            if mismatch {
                j = nn;
            } else {
                let hc = h.get_char(i + j);
                let nc = needle.get_char(j);
                if hc != nc {
                    proof {
                        assert(h@.subrange(i as int, i + nn as int)[j as int] != needle@[
                            j as int
                        ]);
                    }
                    mismatch = true;
                }
                j += 1;
            }
        }
        if !mismatch {
            proof {
                assert(h@.subrange(i as int, i + nn as int) =~= needle@);
                assert(occurs_at(h@, needle@, i as int));
            }
            return true;
        }
        i += 1;
    }
    proof {
        assert(forall|k: int| occurs_at(h@, needle@, k) ==> 0 <= k <= hn - nn);
    }
    false
}

/// Character-for-character string equality.
pub fn str_eq(a: &str, b: &str) -> (r: bool)
    ensures
        r == (a@ == b@),
{
    let an = a.unicode_len();
    let bn = b.unicode_len();
    if an != bn {
        return false;
    }
    let mut i: usize = 0;
    while i < an
        invariant
            i <= an,
            an == a@.len(),
            an == b@.len(),
            forall|k: int| 0 <= k < i ==> a@[k] == b@[k],
        decreases an - i,
    {
        if a.get_char(i) != b.get_char(i) {
            return false;
        }
        i += 1;
    }
    proof {
        assert(a@ =~= b@);
    }
    true
}

/// A decimal digit character.
pub open spec fn is_digit(c: char) -> bool {
    '0' <= c <= '9'
}

/// The numeric value of a digit character.
pub open spec fn digit_val(c: char) -> nat {
    (c as nat - '0' as nat) as nat
}

/// Every character of `s` is a decimal digit.
pub open spec fn all_digits(s: Seq<char>) -> bool {
    forall|i: int| 0 <= i < s.len() ==> is_digit(#[trigger] s[i])
}

/// The number a digit sequence denotes, most significant digit first.
pub open spec fn dec_val(s: Seq<char>) -> nat
    decreases s.len(),
{
    if s.len() == 0 {
        0
    } else {
        dec_val(s.drop_last()) * 10 + digit_val(s.last())
    }
}

/// A digit sequence denotes at least as much as any of its prefixes.
pub proof fn lemma_dec_val_prefix_mono(s: Seq<char>, i: int)
    requires
        0 <= i <= s.len(),
    ensures
        dec_val(s.take(i)) <= dec_val(s),
    decreases s.len() - i,
{
    if i < s.len() {
        lemma_dec_val_prefix_mono(s, i + 1);
        assert(s.take(i + 1).drop_last() =~= s.take(i));
        assert(dec_val(s.take(i + 1)) == dec_val(s.take(i)) * 10 + digit_val(s.take(i + 1).last()));
        assert(dec_val(s.take(i)) <= dec_val(s.take(i)) * 10) by (nonlinear_arith);
    } else {
        assert(s.take(i) =~= s);
    }
}

/// Parses a non-empty all-digit string as a `u64`; returns `None` exactly
/// when the string is empty, holds a non-digit, or denotes a number above
/// `u64::MAX`.
pub fn parse_u64(s: &str) -> (r: Option<u64>)
    ensures
        match r {
            Some(v) => s@.len() > 0 && all_digits(s@) && v == dec_val(s@),
            None => s@.len() == 0 || !all_digits(s@) || dec_val(s@) > u64::MAX,
        },
{
    let n = s.unicode_len();
    if n == 0 {
        return None;
    }
    let mut acc: u64 = 0;
    let mut i: usize = 0;
    while i < n
        invariant
            i <= n,
            n == s@.len(),
            all_digits(s@.take(i as int)),
            acc == dec_val(s@.take(i as int)),
        decreases n - i,
    {
        let c = s.get_char(i);
        if c < '0' || c > '9' {
            assert(!is_digit(s@[i as int]));
            return None;
        }
        let d: u64 = (c as u32 - 48) as u64;
        assert(d == digit_val(s@[i as int]));
        if acc > (u64::MAX - d) / 10 {
            proof {
                assert(s@.take(i + 1).drop_last() =~= s@.take(i as int));
                assert(dec_val(s@.take(i + 1)) == acc * 10 + d);
                assert(acc * 10 + d > u64::MAX) by (nonlinear_arith)
                    requires
                        acc > (u64::MAX - d) / 10,
                        d <= 9,
                ;
                lemma_dec_val_prefix_mono(s@, i + 1);
            }
            return None;
        }
        proof {
            assert(acc * 10 + d <= u64::MAX) by (nonlinear_arith)
                requires
                    acc <= (u64::MAX - d) / 10,
                    d <= 9,
            ;
            assert(s@.take(i + 1).drop_last() =~= s@.take(i as int));
            assert(all_digits(s@.take(i + 1)));
        }
        acc = acc * 10 + d;
        i += 1;
    }
    proof {
        assert(s@.take(n as int) =~= s@);
    }
    Some(acc)
}

/// The character for a digit value below ten.
pub open spec fn dec_digit_char(d: int) -> char {
    if d == 0 {
        '0'
    } else if d == 1 {
        '1'
    } else if d == 2 {
        '2'
    } else if d == 3 {
        '3'
    } else if d == 4 {
        '4'
    } else if d == 5 {
        '5'
    } else if d == 6 {
        '6'
    } else if d == 7 {
        '7'
    } else if d == 8 {
        '8'
    } else {
        '9'
    }
}

/// The shortest decimal rendering of `n`, without leading zeros (except
/// for zero itself).
pub open spec fn dec_str(n: nat) -> Seq<char>
    decreases n,
{
    if n < 10 {
        seq![dec_digit_char(n as int)]
    } else {
        dec_str(n / 10).push(dec_digit_char((n % 10) as int))
    }
}

/// Printing and parsing are inverse: the decimal rendering of `n` is all
/// digits, non-empty, and denotes `n` again.
pub proof fn lemma_dec_str_round_trip(n: nat)
    ensures
        dec_str(n).len() >= 1,
        all_digits(dec_str(n)),
        dec_val(dec_str(n)) == n,
    decreases n,
{
    if n < 10 {
        assert(dec_str(n) =~= seq![dec_digit_char(n as int)]);
        assert(dec_str(n).drop_last() =~= Seq::<char>::empty());
        assert(dec_val(Seq::<char>::empty()) == 0);
        assert(digit_val(dec_digit_char(n as int)) == n);
    } else {
        lemma_dec_str_round_trip(n / 10);
        assert(dec_str(n).drop_last() =~= dec_str(n / 10));
        assert(dec_val(dec_str(n)) == (n / 10) * 10 + digit_val(dec_digit_char((n % 10) as int)));
        assert((n / 10) * 10 + n % 10 == n) by (nonlinear_arith);
        assert(forall|i: int| 0 <= i < dec_str(n).len() ==> is_digit(#[trigger] dec_str(n)[i]));
    }
}

/// Renders `n` in decimal.
pub fn u64_to_string(n: u64) -> (r: String)
    ensures
        r@ == dec_str(n as nat),
    decreases n,
{
    let digits = "0123456789";
    proof {
        reveal_strlit("0123456789");
    }
    let d = (n % 10) as usize;
    let ds = digits.substring_char(d, d + 1);
    proof {
        assert(ds@ =~= seq![dec_digit_char(d as int)]);
    }
    if n < 10 {
        ds.to_owned()
    } else {
        proof {
            assert(n / 10 < n) by (nonlinear_arith)
                requires
                    n >= 10,
            ;
        }
        let mut prefix = u64_to_string(n / 10);
        prefix.append(ds);
        prefix
    }
}

} // verus!
