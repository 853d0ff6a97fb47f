//! Verified helpers over `&str` and `String`: equality, prefix and suffix
//! tests, character replacement, and decimal rendering of integers. The
//! generators and the selection filter are specified over `Seq<char>`
//! views, and these helpers carry those specifications.

use vstd::prelude::*;

verus! {

/// Character-for-character equality of two string slices.
pub fn str_eq(a: &str, b: &str) -> (r: bool)
    ensures
        r == (a@ == b@),
{
    let alen = a.unicode_len();
    let blen = b.unicode_len();
    if alen != blen {
        proof {
            if a@ == b@ {
                assert(a@.len() == b@.len());
            }
        }
        return false;
    }
    let mut i: usize = 0;
    while i < alen
        invariant
            alen == a@.len(),
            alen == b@.len(),
            i <= alen,
            forall|j: int| 0 <= j < i ==> a@[j] == b@[j],
        decreases alen - i,
    {
        if a.get_char(i) != b.get_char(i) {
            return false;
        }
        i += 1;
    }
    proof {
        assert(a@ =~= b@);
    }
    true
}

/// Whether `p@` is a prefix of `s@`.
pub open spec fn is_prefix(p: Seq<char>, s: Seq<char>) -> bool {
    p.len() <= s.len() && s.subrange(0, p.len() as int) == p
}

/// Whether `p@` is a suffix of `s@`.
pub open spec fn is_suffix(p: Seq<char>, s: Seq<char>) -> bool {
    p.len() <= s.len() && s.subrange(s.len() - p.len(), s.len() as int) == p
}

/// Prefix test on string slices.
pub fn str_starts_with(s: &str, p: &str) -> (r: bool)
    ensures
        r == is_prefix(p@, s@),
{
    let slen = s.unicode_len();
    let plen = p.unicode_len();
    if plen > slen {
        return false;
    }
    let mut i: usize = 0;
    while i < plen
        invariant
            slen == s@.len(),
            plen == p@.len(),
            plen <= slen,
            i <= plen,
            forall|j: int| 0 <= j < i ==> s@[j] == p@[j],
        decreases plen - i,
    {
        if s.get_char(i) != p.get_char(i) {
            proof {
                if is_prefix(p@, s@) {
                    assert(s@.subrange(0, p@.len() as int)[i as int] == s@[i as int]);
                }
            }
            return false;
        }
        i += 1;
    }
    proof {
        assert(s@.subrange(0, p@.len() as int) =~= p@);
    }
    true
}

/// Suffix test on string slices.
pub fn str_ends_with(s: &str, p: &str) -> (r: bool)
    ensures
        r == is_suffix(p@, s@),
{
    let slen = s.unicode_len();
    let plen = p.unicode_len();
    if plen > slen {
        return false;
    }
    let base = slen - plen;
    let mut i: usize = 0;
    while i < plen
        invariant
            slen == s@.len(),
            plen == p@.len(),
            plen <= slen,
            base == slen - plen,
            i <= plen,
            forall|j: int| 0 <= j < i ==> s@[base + j] == p@[j],
        decreases plen - i,
    {
        if s.get_char(base + i) != p.get_char(i) {
            proof {
                if is_suffix(p@, s@) {
                    assert(s@.subrange(s@.len() - p@.len(), s@.len() as int)[i as int]
                        == s@[base + i]);
                }
            }
            return false;
        }
        i += 1;
    }
    proof {
        assert(s@.subrange(s@.len() - p@.len(), s@.len() as int) =~= p@);
    }
    true
}

/// `s@` with every occurrence of `from` replaced by `to`.
pub open spec fn spec_replace(s: Seq<char>, from: char, to: char) -> Seq<char> {
    s.map_values(|c: char| if c == from { to } else { c })
}

/// Copy of `s` with every occurrence of `from` replaced by `to`.
pub fn str_replace_char(s: &str, from: char, to: char) -> (r: String)
    ensures
        r@ == spec_replace(s@, from, to),
{
    let len = s.unicode_len();
    let mut out = String::new();
    let mut i: usize = 0;
    while i < len
        invariant
            len == s@.len(),
            i <= len,
            out@ == spec_replace(s@.subrange(0, i as int), from, to),
        decreases len - i,
    {
        let c = s.get_char(i);
        let d = if c == from { to } else { c };
        string_push_char(&mut out, d);
        proof {
            assert(spec_replace(s@.subrange(0, i as int + 1), from, to)
                =~= spec_replace(s@.subrange(0, i as int), from, to).push(
                    if s@[i as int] == from { to } else { s@[i as int] }));
        }
        i += 1;
    }
    proof {
        assert(s@.subrange(0, len as int) =~= s@);
    }
    out
}

/// Relies on `String::push`: appends exactly the given character.
#[verifier::external_body]
pub fn string_push_char(s: &mut String, c: char)
    ensures
        final(s)@ == old(s)@.push(c),
{
    s.push(c);
}

/// The character for one decimal digit.
pub open spec fn spec_digit(d: int) -> char {
    if d == 0 { '0' }
    else if d == 1 { '1' }
    else if d == 2 { '2' }
    else if d == 3 { '3' }
    else if d == 4 { '4' }
    else if d == 5 { '5' }
    else if d == 6 { '6' }
    else if d == 7 { '7' }
    else if d == 8 { '8' }
    else { '9' }
}

/// The decimal rendering of a nonnegative integer, most significant digit
/// first, with no leading zeros (`0` renders as "0").
pub open spec fn spec_dec(n: int) -> Seq<char>
    decreases n,
{
    if n < 10 {
        seq![spec_digit(n)]
    } else {
        spec_dec(n / 10) + seq![spec_digit(n % 10)]
    }
}

/// Renders an unsigned integer in decimal.
pub fn u64_to_dec(n: u64) -> (r: String)
    ensures
        r@ == spec_dec(n as int),
    decreases n,
{
    let d = (n % 10) as u32;
    let c = if d == 0 { '0' }
    else if d == 1 { '1' }
    else if d == 2 { '2' }
    else if d == 3 { '3' }
    else if d == 4 { '4' }
    else if d == 5 { '5' }
    else if d == 6 { '6' }
    else if d == 7 { '7' }
    else if d == 8 { '8' }
    else { '9' };
    if n < 10 {
        let mut s = String::new();
        string_push_char(&mut s, c);
        proof {
            assert(s@ =~= seq![spec_digit(n as int)]);
        }
        s
    } else {
        let mut s = u64_to_dec(n / 10);
        string_push_char(&mut s, c);
        proof {
            assert(s@ =~= spec_dec(n as int / 10) + seq![spec_digit(n as int % 10)]);
        }
        s
    }
}

/// Renders a 32-bit unsigned integer in decimal.
pub fn u32_to_dec(n: u32) -> (r: String)
    ensures
        r@ == spec_dec(n as int),
{
    u64_to_dec(n as u64)
}

/// The index of the first occurrence of `c` in `s`, or `s.len()` if `c`
/// does not occur.
pub open spec fn spec_find(s: Seq<char>, c: char) -> int
    decreases s.len(),
{
    if s.len() == 0 {
        0
    } else if s[0] == c {
        0
    } else {
        1 + spec_find(s.drop_first(), c)
    }
}

/// The prefix of `s` before the first occurrence of `c` (all of `s` if
/// `c` does not occur).
pub open spec fn spec_before(s: Seq<char>, c: char) -> Seq<char> {
    s.subrange(0, spec_find(s, c))
}

/// `spec_find` stays within bounds, finds `c` where it says, and earlier
/// positions do not hold `c`.
pub proof fn lemma_find(s: Seq<char>, c: char)
    ensures
        0 <= spec_find(s, c) <= s.len(),
        spec_find(s, c) < s.len() ==> s[spec_find(s, c)] == c,
        forall|j: int| 0 <= j < spec_find(s, c) ==> s[j] != c,
    decreases s.len(),
{
    if s.len() != 0 && s[0] != c {
        lemma_find(s.drop_first(), c);
        assert forall|j: int| 0 <= j < spec_find(s, c) implies s[j] != c by {
            if j > 0 {
                assert(s.drop_first()[j - 1] != c);
            }
        }
    }
}

/// The part of `s` before the first occurrence of `c`.
pub fn str_before_char(s: &str, c: char) -> (r: String)
    ensures
        r@ == spec_before(s@, c),
{
    let len = s.unicode_len();
    let mut out = String::new();
    let mut i: usize = 0;
    proof {
        lemma_find(s@, c);
    }
    while i < len
        invariant
            len == s@.len(),
            i <= len,
            forall|j: int| 0 <= j < i ==> s@[j] != c,
            i <= spec_find(s@, c),
            out@ == s@.subrange(0, i as int),
            0 <= spec_find(s@, c) <= s@.len(),
            spec_find(s@, c) < s@.len() ==> s@[spec_find(s@, c)] == c,
            forall|j: int| 0 <= j < spec_find(s@, c) ==> s@[j] != c,
        decreases len - i,
    {
        let ch = s.get_char(i);
        if ch == c {
            proof {
                assert(spec_find(s@, c) == i);
                assert(out@ =~= spec_before(s@, c));
            }
            return out;
        }
        string_push_char(&mut out, ch);
        proof {
            assert(out@ =~= s@.subrange(0, i as int + 1));
            if spec_find(s@, c) == i {
                assert(s@[i as int] == c);
            }
        }
        i += 1;
    }
    proof {
        assert(spec_find(s@, c) == s@.len());
        assert(out@ =~= spec_before(s@, c));
    }
    out
}

/// The first `n` characters of `s`, as a new string.
pub fn str_take(s: &str, n: usize) -> (r: String)
    requires
        n <= s@.len(),
    ensures
        r@ == s@.subrange(0, n as int),
{
    let mut out = String::new();
    let mut i: usize = 0;
    while i < n
        invariant
            n <= s@.len(),
            i <= n,
            out@ == s@.subrange(0, i as int),
        decreases n - i,
    {
        let ch = s.get_char(i);
        string_push_char(&mut out, ch);
        proof {
            assert(out@ =~= s@.subrange(0, i as int + 1));
        }
        i += 1;
    }
    out
}

} // verus!
