//! Parsing of the external tool's progress lines. A line is a progress line
//! if and only if it holds the progress marker and a percent sign; the
//! parser extracts the first run of digits (optionally with a decimal
//! point) between the first bracket and the percent sign and reads it as a
//! percentage in thousandths of a percent, so `45.2%` becomes `45200`.
//! Malformed lines are ignored, never fatal: the tool's output format is
//! not a stable contract.

use vstd::prelude::*;
use crate::strutil::{
    contains_seq, dec_digit_value, find_char_from, find_digit_from, is_dec_digit, str_contains,
};

verus! {

/// `s` holds the character `c` somewhere.
pub open spec fn contains_char(s: Seq<char>, c: char) -> bool {
    exists|i: int| 0 <= i < s.len() && s[i] == c
}

/// Index of the first occurrence of `c` at or after `from`.
pub open spec fn find_char_spec(s: Seq<char>, c: char, from: int) -> Option<int>
    decreases s.len() - from,
{
    if from < 0 || from >= s.len() {
        None
    } else if s[from] == c {
        Some(from)
    } else {
        find_char_spec(s, c, from + 1)
    }
}

/// Index of the first ASCII decimal digit at or after `from`.
pub open spec fn find_digit_spec(s: Seq<char>, from: int) -> Option<int>
    decreases s.len() - from,
{
    if from < 0 || from >= s.len() {
        None
    } else if is_dec_digit(s[from]) {
        Some(from)
    } else {
        find_digit_spec(s, from + 1)
    }
}

/// A blank character that may sit between the percentage and the percent
/// sign.
pub open spec fn is_blank(c: char) -> bool {
    c == ' ' || c == '\t'
}

/// `s` with its trailing blanks removed.
pub open spec fn trim_trailing_blanks(s: Seq<char>) -> Seq<char>
    decreases s.len(),
{
    if s.len() > 0 && is_blank(s.last()) {
        trim_trailing_blanks(s.drop_last())
    } else {
        s
    }
}

/// Every character of `s` is an ASCII decimal digit.
pub open spec fn all_digits(s: Seq<char>) -> bool {
    forall|i: int| 0 <= i < s.len() ==> is_dec_digit(s[i])
}

/// Numeric value of a run of decimal digits, most significant first.
pub open spec fn digits_val(s: Seq<char>) -> nat
    decreases s.len(),
{
    if s.len() == 0 {
        0
    } else {
        digits_val(s.drop_last()) * 10 + dec_digit_value(s.last())
    }
}

/// Value of the digit at `i`, or zero past the end.
pub open spec fn digit_at_or_zero(s: Seq<char>, i: int) -> nat {
    if 0 <= i < s.len() {
        dec_digit_value(s[i])
    } else {
        0
    }
}

/// Thousandths contributed by a fractional-digit run; digits beyond the
/// third are cut off.
pub open spec fn frac_milli(s: Seq<char>) -> nat {
    digit_at_or_zero(s, 0) * 100 + digit_at_or_zero(s, 1) * 10 + digit_at_or_zero(s, 2)
}

/// Reads a trimmed token as a decimal percentage in thousandths of a
/// percent: one or more digits, optionally followed by a decimal point and
/// further digits. Anything else, or a value too large to hold, is `None`.
pub open spec fn token_milli(t: Seq<char>) -> Option<u64> {
    let (ip, fp) = match find_char_spec(t, '.', 0) {
        None => (t, Seq::<char>::empty()),
        Some(p) => (t.subrange(0, p), t.subrange(p + 1, t.len() as int)),
    };
    if ip.len() > 0 && all_digits(ip) && all_digits(fp) {
        let v = digits_val(ip) * 1000 + frac_milli(fp);
        if v <= u64::MAX {
            Some(v as u64)
        } else {
            None
        }
    } else {
        None
    }
}

/// The marker token that classifies a line as a progress line.
pub open spec fn progress_marker() -> Seq<char> {
    "[download]"@
}

/// What a line of the tool's standard output reports: `Some(p)` with `p` in
/// thousandths of a percent for a well-formed progress line, `None` for
/// every other line.
pub open spec fn parse_progress_spec(line: Seq<char>) -> Option<u64> {
    if !(contains_seq(line, progress_marker()) && contains_char(line, '%')) {
        None
    } else {
        match find_char_spec(line, '[', 0) {
            None => None,
            Some(s) => match find_digit_spec(line, s) {
                None => None,
                Some(d) => match find_char_spec(line, '%', d) {
                    None => None,
                    Some(e) => token_milli(trim_trailing_blanks(line.subrange(d, e))),
                },
            },
        }
    }
}

proof fn lemma_find_char_some(s: Seq<char>, c: char, from: int, i: int)
    requires
        0 <= from <= i < s.len(),
        s[i] == c,
        forall|j: int| from <= j < i ==> s[j] != c,
    ensures
        find_char_spec(s, c, from) == Some(i),
    decreases i - from,
{
    if from < i {
        lemma_find_char_some(s, c, from + 1, i);
    }
}

proof fn lemma_find_char_none(s: Seq<char>, c: char, from: int)
    requires
        0 <= from,
        forall|j: int| from <= j < s.len() ==> s[j] != c,
    ensures
        find_char_spec(s, c, from) == None::<int>,
    decreases s.len() - from,
{
    if from < s.len() {
        lemma_find_char_none(s, c, from + 1);
    }
}

proof fn lemma_find_digit_some(s: Seq<char>, from: int, i: int)
    requires
        0 <= from <= i < s.len(),
        is_dec_digit(s[i]),
        forall|j: int| from <= j < i ==> !is_dec_digit(s[j]),
    ensures
        find_digit_spec(s, from) == Some(i),
    decreases i - from,
{
    if from < i {
        lemma_find_digit_some(s, from + 1, i);
    }
}

proof fn lemma_find_digit_none(s: Seq<char>, from: int)
    requires
        0 <= from,
        forall|j: int| from <= j < s.len() ==> !is_dec_digit(s[j]),
    ensures
        find_digit_spec(s, from) == None::<int>,
    decreases s.len() - from,
{
    if from < s.len() {
        lemma_find_digit_none(s, from + 1);
    }
}

proof fn lemma_trim_range(s: Seq<char>, d: int, ee: int, e: int)
    requires
        0 <= d <= ee <= e <= s.len(),
        forall|j: int| ee <= j < e ==> is_blank(s[j]),
        ee > d ==> !is_blank(s[ee - 1]),
    ensures
        trim_trailing_blanks(s.subrange(d, e)) == s.subrange(d, ee),
    decreases e - ee,
{
    if e == ee {
        let t = s.subrange(d, e);
        if e > d {
            assert(t.last() == s[e - 1]);
        }
    } else {
        let t = s.subrange(d, e);
        assert(t.last() == s[e - 1]);
        assert(is_blank(t.last()));
        assert(t.drop_last() =~= s.subrange(d, e - 1));
        lemma_trim_range(s, d, ee, e - 1);
    }
}

proof fn lemma_digits_val_step(s: Seq<char>, i: int)
    requires
        0 <= i < s.len(),
    ensures
        digits_val(s.subrange(0, i + 1)) == digits_val(s.subrange(0, i)) * 10 + dec_digit_value(
            s[i],
        ),
{
    let t = s.subrange(0, i + 1);
    assert(t.len() == i + 1);
    assert(t.drop_last() =~= s.subrange(0, i));
    assert(t.last() == s[i]);
}

proof fn lemma_digits_val_mono(s: Seq<char>, i: int, j: int)
    requires
        0 <= i <= j <= s.len(),
    ensures
        digits_val(s.subrange(0, i)) <= digits_val(s.subrange(0, j)),
    decreases j - i,
{
    if i < j {
        lemma_digits_val_mono(s, i, j - 1);
        lemma_digits_val_step(s, j - 1);
    }
}

/// What the progress monitor must do with one line of output.
#[derive(Debug, Clone, Copy, PartialEq, Eq)]
pub enum MonitorStep {
    /// Cancellation was observed: stop reading, without error.
    Stop,
    /// Emit a progress event with this percentage, in thousandths.
    Emit(u64),
    /// Not a well-formed progress line: ignore it and read on.
    Ignore,
}

/// One step of the progress monitor: the cancellation flag is checked
/// before each line is processed; only then is the line parsed.
pub fn monitor_step(cancelled: bool, line: &str) -> (r: MonitorStep)
    ensures
        cancelled ==> r == MonitorStep::Stop,
        !cancelled ==> r == (match parse_progress_spec(line@) {
            Some(p) => MonitorStep::Emit(p),
            None => MonitorStep::Ignore,
        }),
{
    if cancelled {
        return MonitorStep::Stop;
    }
    match parse_progress_line(line) {
        Some(p) => MonitorStep::Emit(p),
        None => MonitorStep::Ignore,
    }
}

/// `c` may sit, as padding, between the percentage and the percent sign.
fn is_blank_char(c: char) -> (r: bool)
    ensures
        r == is_blank(c),
{
    c == ' ' || c == '\t'
}

/// Reads a trimmed token as a percentage in thousandths of a percent.
#[verifier::loop_isolation(false)]
fn parse_token_milli(t: &str) -> (r: Option<u64>)
    ensures
        r == token_milli(t@),
{
    let n = t.unicode_len();
    let dot = find_char_from(t, '.', 0);
    proof {
        match dot {
            Some(p) => lemma_find_char_some(t@, '.', 0, p as int),
            None => lemma_find_char_none(t@, '.', 0),
        }
    }
    let (ip_end, fs): (usize, usize) = match dot {
        None => (n, n),
        Some(p) => (p, p + 1),
    };
    let ghost ip = match find_char_spec(t@, '.', 0) {
        None => t@,
        Some(p) => t@.subrange(0, p),
    };
    let ghost fp = match find_char_spec(t@, '.', 0) {
        None => Seq::<char>::empty(),
        Some(p) => t@.subrange(p + 1, t@.len() as int),
    };
    proof {
        assert(ip =~= t@.subrange(0, ip_end as int));
        assert(fp =~= t@.subrange(fs as int, n as int));
    }
    if ip_end == 0 {
        return None;
    }
    // integer part: every character a digit, value accumulated left to right
    let mut acc: u64 = 0;
    let mut i: usize = 0;
    while i < ip_end
        invariant
            n == t@.len(),
            ip_end <= n,
            ip =~= t@.subrange(0, ip_end as int),
            i <= ip_end,
            forall|j: int| 0 <= j < i ==> is_dec_digit(t@[j]),
            acc == digits_val(t@.subrange(0, i as int)),
        decreases ip_end - i,
    {
        let c = t.get_char(i);
        if !('0' <= c && c <= '9') {
            proof {
                assert(ip[i as int] == t@[i as int]);
                assert(!all_digits(ip));
            }
            return None;
        }
        let dv: u64 = (c as u32 - '0' as u32) as u64;
        proof {
            lemma_digits_val_step(t@, i as int);
        }
        let next = match acc.checked_mul(10) {
            Some(m) => m.checked_add(dv),
            None => None,
        };
        match next {
            Some(v) => {
                acc = v;
            },
            None => {
                // the integer part alone no longer fits: the token's value
                // cannot fit either, which is exactly the `None` case
                proof {
                    assert(digits_val(t@.subrange(0, i + 1)) > u64::MAX);
                    lemma_digits_val_mono(t@, i + 1, ip_end as int);
                    assert(digits_val(ip) > u64::MAX);
                    assert(digits_val(ip) * 1000 >= digits_val(ip));
                }
                return None;
            },
        }
        i += 1;
    }
    proof {
        assert(acc == digits_val(ip));
        assert(all_digits(ip));
    }
    // fractional part: every character a digit
    let mut j: usize = fs;
    while j < n
        invariant
            n == t@.len(),
            fs <= j <= n,
            fp =~= t@.subrange(fs as int, n as int),
            forall|k: int| fs <= k < j ==> is_dec_digit(t@[k]),
        decreases n - j,
    {
        let c = t.get_char(j);
        if !('0' <= c && c <= '9') {
            proof {
                assert(fp[j - fs] == t@[j as int]);
                assert(!all_digits(fp));
            }
            return None;
        }
        j += 1;
    }
    proof {
        assert forall|k: int| 0 <= k < fp.len() implies is_dec_digit(fp[k]) by {
            assert(fp[k] == t@[fs + k]);
        }
        assert(all_digits(fp));
    }
    // first three fractional digits, scaled to thousandths
    let mut f: u64 = 0;
    if fs < n {
        let c0 = t.get_char(fs);
        proof {
            assert(fp[0] == t@[fs as int]);
        }
        f = f + ((c0 as u32 - '0' as u32) as u64) * 100;
        if fs + 1 < n {
            let c1 = t.get_char(fs + 1);
            proof {
                assert(fp[1] == t@[fs + 1]);
            }
            f = f + ((c1 as u32 - '0' as u32) as u64) * 10;
            if fs + 2 < n {
                let c2 = t.get_char(fs + 2);
                proof {
                    assert(fp[2] == t@[fs + 2]);
                }
                f = f + ((c2 as u32 - '0' as u32) as u64);
            }
        }
    }
    proof {
        assert(f == frac_milli(fp));
    }
    let scaled = match acc.checked_mul(1000) {
        Some(m) => m.checked_add(f),
        None => None,
    };
    match scaled {
        Some(v) => {
            proof {
                assert(v == digits_val(ip) * 1000 + frac_milli(fp));
            }
            Some(v)
        },
        None => {
            proof {
                assert(digits_val(ip) * 1000 + frac_milli(fp) > u64::MAX);
            }
            None
        },
    }
}

/// Reads one line of the tool's standard output; `Some(p)` with the parsed
/// percentage in thousandths of a percent exactly when the line is a
/// well-formed progress line.
pub fn parse_progress_line(line: &str) -> (r: Option<u64>)
    ensures
        r == parse_progress_spec(line@),
{
    let has_marker = str_contains(line, "[download]");
    let percent_somewhere = find_char_from(line, '%', 0);
    let has_percent = percent_somewhere.is_some();
    if !(has_marker && has_percent) {
        return None;
    }
    let open = find_char_from(line, '[', 0);
    proof {
        match open {
            Some(s) => lemma_find_char_some(line@, '[', 0, s as int),
            None => lemma_find_char_none(line@, '[', 0),
        }
    }
    let s = match open {
        Some(s) => s,
        None => {
            return None;
        },
    };
    let digit = find_digit_from(line, s);
    proof {
        match digit {
            Some(d) => lemma_find_digit_some(line@, s as int, d as int),
            None => lemma_find_digit_none(line@, s as int),
        }
    }
    let d = match digit {
        Some(d) => d,
        None => {
            return None;
        },
    };
    let pct = find_char_from(line, '%', d);
    proof {
        match pct {
            Some(e) => lemma_find_char_some(line@, '%', d as int, e as int),
            None => lemma_find_char_none(line@, '%', d as int),
        }
    }
    let e = match pct {
        Some(e) => e,
        None => {
            return None;
        },
    };
    // trim the blanks that may sit between the digits and the percent sign
    let mut ee = e;
    while ee > d && is_blank_char(line.get_char(ee - 1))
        invariant
            d <= ee <= e < line@.len(),
            forall|k: int| ee <= k < e ==> is_blank(line@[k]),
        decreases ee,
    {
        ee = ee - 1;
    }
    proof {
        lemma_trim_range(line@, d as int, ee as int, e as int);
    }
    let token = line.substring_char(d, ee);
    parse_token_milli(token)
}

} // verus!
