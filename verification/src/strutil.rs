//! Verified string helpers: prefix/suffix/containment tests, character
//! search, and decimal formatting, all specified over `Seq<char>` views.

use vstd::prelude::*;

verus! {

/// `pre` is an initial segment of `s`.
pub open spec fn is_prefix_of<T>(pre: Seq<T>, s: Seq<T>) -> bool {
    pre.len() <= s.len() && s.subrange(0, pre.len() as int) == pre
}

/// `suf` is a final segment of `s`.
pub open spec fn is_suffix_of<T>(suf: Seq<T>, s: Seq<T>) -> bool {
    suf.len() <= s.len() && s.subrange(s.len() - suf.len(), s.len() as int) == suf
}

/// `sub` occurs in `s` starting at position `i`.
pub open spec fn occurs_at(s: Seq<char>, sub: Seq<char>, i: int) -> bool {
    0 <= i && i + sub.len() <= s.len() && s.subrange(i, i + sub.len()) == sub
}

/// `sub` occurs somewhere in `s`.
pub open spec fn contains_seq(s: Seq<char>, sub: Seq<char>) -> bool {
    exists|i: int| occurs_at(s, sub, i)
}

/// `c` is an ASCII decimal digit.
pub open spec fn is_dec_digit(c: char) -> bool {
    '0' <= c && c <= '9'
}

/// Numeric value of an ASCII decimal digit.
pub open spec fn dec_digit_value(c: char) -> nat {
    (c as u32 - '0' as u32) as nat
}

/// The two strings hold the same characters.
pub fn str_eq(a: &str, b: &str) -> (r: bool)
    ensures
        r == (a@ == b@),
{
    let a_len = a.unicode_len();
    let b_len = b.unicode_len();
    if a_len != b_len {
        return false;
    }
    let mut i: usize = 0;
    while i < a_len
        invariant
            a_len == a@.len(),
            b_len == b@.len(),
            a_len == b_len,
            i <= a_len,
            forall|j: int| 0 <= j < i ==> a@[j] == b@[j],
        decreases a_len - i,
    {
        if a.get_char(i) != b.get_char(i) {
            return false;
        }
        i += 1;
    }
    proof {
        assert(a@ =~= b@);
    }
    true
}

/// `s` begins with `pre`.
pub fn str_starts_with(s: &str, pre: &str) -> (r: bool)
    ensures
        r == is_prefix_of(pre@, s@),
{
    let s_len = s.unicode_len();
    let p_len = pre.unicode_len();
    if p_len > s_len {
        return false;
    }
    let mut i: usize = 0;
    while i < p_len
        invariant
            s_len == s@.len(),
            p_len == pre@.len(),
            p_len <= s_len,
            i <= p_len,
            forall|j: int| 0 <= j < i ==> s@[j] == pre@[j],
        decreases p_len - i,
    {
        if s.get_char(i) != pre.get_char(i) {
            proof {
                assert(s@.subrange(0, pre@.len() as int)[i as int] == s@[i as int]);
            }
            return false;
        }
        i += 1;
    }
    proof {
        assert(s@.subrange(0, pre@.len() as int) =~= pre@);
    }
    true
}

/// `s` ends with `suf`.
pub fn str_ends_with(s: &str, suf: &str) -> (r: bool)
    ensures
        r == is_suffix_of(suf@, s@),
{
    let s_len = s.unicode_len();
    let f_len = suf.unicode_len();
    if f_len > s_len {
        return false;
    }
    let off: usize = s_len - f_len;
    let mut i: usize = 0;
    while i < f_len
        invariant
            s_len == s@.len(),
            f_len == suf@.len(),
            f_len <= s_len,
            off == s_len - f_len,
            i <= f_len,
            forall|j: int| 0 <= j < i ==> s@[off + j] == suf@[j],
        decreases f_len - i,
    {
        if s.get_char(off + i) != suf.get_char(i) {
            proof {
                assert(s@.subrange(s@.len() - suf@.len(), s@.len() as int)[i as int]
                    == s@[off + i]);
            }
            return false;
        }
        i += 1;
    }
    proof {
        assert(s@.subrange(s@.len() - suf@.len(), s@.len() as int) =~= suf@);
    }
    true
}

/// `sub` occurs in `s` at position `i` (false when it would run past the end).
pub fn occurs_at_exec(s: &str, sub: &str, i: usize) -> (r: bool)
    requires
        i <= s@.len(),
    ensures
        r == occurs_at(s@, sub@, i as int),
{
    let s_len = s.unicode_len();
    let b_len = sub.unicode_len();
    if b_len > s_len - i {
        return false;
    }
    let mut j: usize = 0;
    while j < b_len
        invariant
            s_len == s@.len(),
            b_len == sub@.len(),
            i + b_len <= s_len,
            j <= b_len,
            forall|k: int| 0 <= k < j ==> s@[i + k] == sub@[k],
        decreases b_len - j,
    {
        if s.get_char(i + j) != sub.get_char(j) {
            proof {
                assert(s@.subrange(i as int, i + sub@.len())[j as int] == s@[i + j]);
            }
            return false;
        }
        j += 1;
    }
    proof {
        assert(s@.subrange(i as int, i + sub@.len()) =~= sub@);
    }
    true
}

/// `sub` occurs somewhere in `s`.
pub fn str_contains(s: &str, sub: &str) -> (r: bool)
    ensures
        r == contains_seq(s@, sub@),
{
    let s_len = s.unicode_len();
    let b_len = sub.unicode_len();
    if b_len > s_len {
        proof {
            assert(forall|i: int| !occurs_at(s@, sub@, i));
        }
        return false;
    }
    let last: usize = s_len - b_len;
    let mut i: usize = 0;
    loop
        invariant
            s_len == s@.len(),
            b_len == sub@.len(),
            b_len <= s_len,
            last == s_len - b_len,
            i <= last,
            forall|j: int| 0 <= j < i ==> !occurs_at(s@, sub@, j),
        decreases last - i,
    {
        if occurs_at_exec(s, sub, i) {
            return true;
        }
        if i == last {
            proof {
                assert(forall|j: int| occurs_at(s@, sub@, j) ==> 0 <= j <= last);
            }
            return false;
        }
        i += 1;
    }
}

/// Index of the first occurrence of character `c` at or after `from`.
pub fn find_char_from(s: &str, c: char, from: usize) -> (r: Option<usize>)
    ensures
        match r {
            Some(i) => from <= i < s@.len() && s@[i as int] == c
                && forall|j: int| from <= j < i ==> s@[j] != c,
            None => forall|j: int| from <= j < s@.len() ==> s@[j] != c,
        },
{
    let s_len = s.unicode_len();
    let mut i: usize = from;
    while i < s_len
        invariant
            s_len == s@.len(),
            from <= i,
            forall|j: int| from <= j < i ==> s@[j] != c,
        decreases s_len - i,
    {
        if s.get_char(i) == c {
            return Some(i);
        }
        i += 1;
    }
    None
}

/// Index of the first ASCII decimal digit at or after `from`.
pub fn find_digit_from(s: &str, from: usize) -> (r: Option<usize>)
    ensures
        match r {
            Some(i) => from <= i < s@.len() && is_dec_digit(s@[i as int])
                && forall|j: int| from <= j < i ==> !is_dec_digit(s@[j]),
            None => forall|j: int| from <= j < s@.len() ==> !is_dec_digit(s@[j]),
        },
{
    let s_len = s.unicode_len();
    let mut i: usize = from;
    while i < s_len
        invariant
            s_len == s@.len(),
            from <= i,
            forall|j: int| from <= j < i ==> !is_dec_digit(s@[j]),
        decreases s_len - i,
    {
        let c = s.get_char(i);
        if '0' <= c && c <= '9' {
            return Some(i);
        }
        i += 1;
    }
    None
}

/// Decimal digit character for a value below ten.
pub open spec fn dec_digit_char(d: nat) -> char
    recommends
        d < 10,
{
    (('0' as u32 + d) as u8) as char
}

/// Decimal representation of `n`, most significant digit first.
pub open spec fn dec_digits(n: nat) -> Seq<char>
    decreases n,
{
    if n < 10 {
        seq![dec_digit_char(n)]
    } else {
        dec_digits(n / 10) + seq![dec_digit_char(n % 10)]
    }
}

/// One decimal digit as a string slice.
pub fn dec_digit_str(d: u64) -> (r: &'static str)
    requires
        d < 10,
    ensures
        r@ =~= seq![dec_digit_char(d as nat)],
{
    proof {
        reveal_strlit("0");
        reveal_strlit("1");
        reveal_strlit("2");
        reveal_strlit("3");
        reveal_strlit("4");
        reveal_strlit("5");
        reveal_strlit("6");
        reveal_strlit("7");
        reveal_strlit("8");
        reveal_strlit("9");
    }
    match d {
        0 => "0",
        1 => "1",
        2 => "2",
        3 => "3",
        4 => "4",
        5 => "5",
        6 => "6",
        7 => "7",
        8 => "8",
        _ => "9",
    }
}

/// Appends the decimal representation of `n` to `out`.
pub fn append_dec_u64(out: &mut String, n: u64)
    ensures
        final(out)@ == old(out)@ + dec_digits(n as nat),
    decreases n,
{
    if n < 10 {
        out.append(dec_digit_str(n));
    } else {
        append_dec_u64(out, n / 10);
        out.append(dec_digit_str(n % 10));
    }
}

/// Decimal representation of `n` as a fresh string.
pub fn u64_to_string(n: u64) -> (r: String)
    ensures
        r@ == dec_digits(n as nat),
{
    let mut out = String::new();
    append_dec_u64(&mut out, n);
    proof {
        assert(out@ =~= dec_digits(n as nat));
    }
    out
}

} // verus!
