//! Character- and string-level helpers shared by the field decoders:
//! decimal digits, fixed-width decimal numbers, string equality, suffix
//! and substring tests.

use vstd::prelude::*;

verus! {

/// A decimal digit character.
pub open spec fn is_digit(c: char) -> bool {
    '0' <= c && c <= '9'
}

/// Numeric value of a decimal digit character.
pub open spec fn digit_val(c: char) -> int {
    c as int - '0' as int
}

/// Every character of `s` in `[from, to)` is a decimal digit.
pub open spec fn all_digits(s: Seq<char>, from: int, to: int) -> bool {
    forall|i: int| from <= i < to ==> is_digit(#[trigger] s[i])
}

/// Value of the digit characters of `s` in `[from, to)` read as a
/// base-10 number, most significant digit first.
pub open spec fn dec_val(s: Seq<char>, from: int, to: int) -> int
    decreases to - from,
{
    if from >= to {
        0
    } else {
        dec_val(s, from, to - 1) * 10 + digit_val(s[to - 1])
    }
}

/// `s` ends with the characters `suffix`.
pub open spec fn ends_with(s: Seq<char>, suffix: Seq<char>) -> bool {
    s.len() >= suffix.len() && s.subrange(s.len() - suffix.len(), s.len() as int) == suffix
}

/// The characters `p` occur in `s` starting at position `i`.
pub open spec fn occurs_at(s: Seq<char>, p: Seq<char>, i: int) -> bool {
    0 <= i && i + p.len() <= s.len() && s.subrange(i, i + p.len()) == p
}

/// The characters `p` occur somewhere in `s`.
pub open spec fn contains_seq(s: Seq<char>, p: Seq<char>) -> bool {
    exists|i: int| occurs_at(s, p, i)
}

/// 10 to the power `n`.
pub open spec fn pow10(n: nat) -> int
    decreases n,
{
    if n == 0 {
        1
    } else {
        10 * pow10((n - 1) as nat)
    }
}

/// A run of digits is bounded by a power of ten: `dec_val` over `k`
/// digit positions is below `10^k`.
pub proof fn lemma_dec_val_bound(s: Seq<char>, from: int, to: int)
    requires
        from <= to,
        all_digits(s, from, to),
    ensures
        0 <= dec_val(s, from, to) < pow10((to - from) as nat),
    decreases to - from,
{
    if from < to {
        lemma_dec_val_bound(s, from, to - 1);
    }
}

/// Whether `c` is a decimal digit, decided in executable code.
pub fn digit(c: char) -> (r: bool)
    ensures
        r == is_digit(c),
{
    '0' <= c && c <= '9'
}

/// View equality of two string slices, decided character by character.
pub fn str_eq(a: &str, b: &str) -> (r: bool)
    ensures
        r == (a@ == b@),
{
    let alen = a.unicode_len();
    let blen = b.unicode_len();
    if alen != blen {
        return false;
    }
    let mut i: usize = 0;
    while i < alen
        invariant
            alen == a@.len(),
            alen == b@.len(),
            i <= alen,
            forall|j: int| 0 <= j < i ==> a@[j] == b@[j],
        decreases alen - i,
    {
        if a.get_char(i) != b.get_char(i) {
            return false;
        }
        i = i + 1;
    }
    proof {
        assert(a@ =~= b@);
    }
    true
}

/// Whether `s` ends with `suffix`, decided character by character.
pub fn str_ends_with(s: &str, suffix: &str) -> (r: bool)
    ensures
        r == ends_with(s@, suffix@),
{
    let slen = s.unicode_len();
    let plen = suffix.unicode_len();
    if slen < plen {
        return false;
    }
    let mut i: usize = 0;
    while i < plen
        invariant
            slen == s@.len(),
            plen == suffix@.len(),
            plen <= slen,
            i <= plen,
            forall|j: int| 0 <= j < i ==> s@[slen - plen + j] == suffix@[j],
        decreases plen - i,
    {
        if s.get_char(slen - plen + i) != suffix.get_char(i) {
            proof {
                let tail = s@.subrange(s@.len() - suffix@.len(), s@.len() as int);
                assert(tail[i as int] == s@[slen - plen + i]);
            }
            return false;
        }
        i = i + 1;
    }
    proof {
        assert(s@.subrange(s@.len() - suffix@.len(), s@.len() as int) =~= suffix@);
    }
    true
}

/// Whether `p` occurs in `s` at position `at`, decided character by
/// character.
fn match_at(s: &str, p: &str, at: usize) -> (r: bool)
    requires
        at + p@.len() <= s@.len() <= usize::MAX,
    ensures
        r == occurs_at(s@, p@, at as int),
{
    let plen = p.unicode_len();
    let mut j: usize = 0;
    while j < plen
        invariant
            plen == p@.len(),
            at + plen <= s@.len() <= usize::MAX,
            j <= plen,
            forall|k: int| 0 <= k < j ==> s@[at + k] == p@[k],
        decreases plen - j,
    {
        if s.get_char(at + j) != p.get_char(j) {
            proof {
                let window = s@.subrange(at as int, at + p@.len());
                assert(window[j as int] == s@[at + j]);
            }
            return false;
        }
        j = j + 1;
    }
    proof {
        assert(s@.subrange(at as int, at + p@.len()) =~= p@);
    }
    true
}

/// Whether the characters of `p` occur anywhere in `s` (naive scan).
pub fn str_contains(s: &str, p: &str) -> (r: bool)
    ensures
        r == contains_seq(s@, p@),
{
    let slen = s.unicode_len();
    let plen = p.unicode_len();
    if plen > slen {
        proof {
            assert(forall|i: int| !occurs_at(s@, p@, i));
        }
        return false;
    }
    if plen == 0 {
        proof {
            assert(s@.subrange(0, 0) =~= p@);
            assert(occurs_at(s@, p@, 0));
        }
        return true;
    }
    let mut start: usize = 0;
    while start <= slen - plen
        invariant
            slen == s@.len(),
            plen == p@.len(),
            0 < plen <= slen,
            start <= slen - plen + 1,
            forall|k: int| 0 <= k < start ==> !occurs_at(s@, p@, k),
        decreases slen - plen - start + 1,
    {
        if match_at(s, p, start) {
            proof {
                assert(occurs_at(s@, p@, start as int));
            }
            return true;
        }
        start = start + 1;
    }
    proof {
        assert(forall|i: int| #[trigger] occurs_at(s@, p@, i) ==> 0 <= i <= slen - plen);
        assert(forall|i: int| !occurs_at(s@, p@, i));
    }
    false
}

/// Parses the characters of `s` in `[from, to)` as a base-10 integer;
/// returns `Some` exactly when every one of them is a decimal digit.
pub fn parse_digits(s: &str, from: usize, to: usize) -> (r: Option<u32>)
    requires
        from <= to,
        to <= s@.len(),
        to - from <= 4,
    ensures
        match r {
            Some(v) => all_digits(s@, from as int, to as int) && v == dec_val(
                s@,
                from as int,
                to as int,
            ),
            None => !all_digits(s@, from as int, to as int),
        },
{
    let mut val: u32 = 0;
    let mut i: usize = from;
    while i < to
        invariant
            from <= i <= to,
            to <= s@.len(),
            to - from <= 4,
            all_digits(s@, from as int, i as int),
            val == dec_val(s@, from as int, i as int),
            val < 10000,
        decreases to - i,
    {
        let c = s.get_char(i);
        if !digit(c) {
            return None;
        }
        proof {
            lemma_dec_val_bound(s@, from as int, i as int);
            assert(pow10((i - from) as nat) <= 1000) by {
                reveal_with_fuel(pow10, 5);
            }
        }
        val = val * 10 + (c as u32 - '0' as u32);
        i = i + 1;
    }
    Some(val)
}

} // verus!
