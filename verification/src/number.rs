//! Decimal numbers as text: whole numbers, and times written in seconds
//! that are held as whole milliseconds.

use vstd::prelude::*;

verus! {

/// Whether `c` is one of the ASCII digits `0` to `9`.
pub open spec fn is_digit(c: char) -> bool {
    0x30 <= c as u32 <= 0x39
}

/// The number that the digit `c` stands for.
pub open spec fn digit_value(c: char) -> int {
    c as u32 - 0x30
}

/// Whether `s` holds digits only. The empty sequence does.
pub open spec fn all_digits(s: Seq<char>) -> bool {
    forall|i: int| 0 <= i < s.len() ==> is_digit(#[trigger] s[i])
}

/// The number that the digits `s` write in base ten; 0 for no digits.
pub open spec fn digits_value(s: Seq<char>) -> int
    decreases s.len(),
{
    if s.len() == 0 {
        0
    } else {
        digits_value(s.drop_last()) * 10 + digit_value(s.last())
    }
}

/// The value of a run of digits, which may be empty.
pub open spec fn digits_of(s: Seq<char>) -> Option<int> {
    if all_digits(s) {
        Some(digits_value(s))
    } else {
        None
    }
}

/// `v` as a `u64`, where it is one.
pub open spec fn fits_u64(v: Option<int>) -> Option<u64> {
    match v {
        Some(x) => if 0 <= x <= u64::MAX {
            Some(x as u64)
        } else {
            None
        },
        None => None,
    }
}

/// `v` as an `i64`, where it is one.
pub open spec fn fits_i64(v: Option<int>) -> Option<i64> {
    match v {
        Some(x) => if i64::MIN <= x <= i64::MAX {
            Some(x as i64)
        } else {
            None
        },
        None => None,
    }
}

/// The value of digits is not negative, and not below the value of the
/// first `k` of them.
pub proof fn lemma_digits_value_grows(s: Seq<char>, k: int)
    requires
        all_digits(s),
        0 <= k <= s.len(),
    ensures
        0 <= digits_value(s.take(k)) <= digits_value(s),
    decreases s.len(),
{
    if k == s.len() {
        assert(s.take(k) == s);
        if s.len() > 0 {
            assert(is_digit(s[s.len() - 1]));
            lemma_digits_value_grows(s.drop_last(), k - 1);
        }
    } else {
        assert(is_digit(s[s.len() - 1]));
        assert(s.drop_last().take(k) == s.take(k));
        lemma_digits_value_grows(s.drop_last(), k);
    }
}

/// Whether `c` is an ASCII digit.
pub fn is_digit_char(c: char) -> (r: bool)
    ensures
        r == is_digit(c),
{
    let n: u32 = c as u32;
    0x30 <= n && n <= 0x39
}

/// The characters of `s` from index `from` up to, not including, `to`.
pub fn slice_chars(s: &Vec<char>, from: usize, to: usize) -> (v: Vec<char>)
    requires
        from <= to <= s.len(),
    ensures
        v@ == s@.subrange(from as int, to as int),
{
    let mut v: Vec<char> = Vec::new();
    let mut i: usize = from;
    while i < to
        invariant
            from <= i <= to <= s.len(),
            v@ == s@.subrange(from as int, i as int),
        decreases to - i,
    {
        v.push(s[i]);
        i += 1;
    }
    v
}

/// Reads a run of digits. The empty run reads as 0; a run whose value does
/// not fit in 64 bits, or that holds anything but digits, reads as nothing.
pub fn parse_digits(s: &Vec<char>) -> (r: Option<u64>)
    ensures
        r == fits_u64(digits_of(s@)),
{
    let mut acc: u64 = 0;
    let mut i: usize = 0;
    while i < s.len()
        invariant
            i <= s.len(),
            all_digits(s@.take(i as int)),
            acc == digits_value(s@.take(i as int)),
        decreases s.len() - i,
    {
        let c = s[i];
        if !is_digit_char(c) {
            return None;
        }
        let d: u64 = (c as u32 - 0x30) as u64;
        proof {
            assert(s@.take(i + 1).drop_last() == s@.take(i as int));
            assert forall|j: int| 0 <= j < i + 1 implies is_digit(#[trigger] s@.take(i + 1)[j]) by {
                if j < i {
                    assert(s@.take(i as int)[j] == s@[j]);
                }
            }
        }
        if acc > (u64::MAX - d) / 10 {
            proof {
                if all_digits(s@) {
                    lemma_digits_value_grows(s@, i + 1);
                }
            }
            return None;
        }
        acc = acc * 10 + d;
        i += 1;
    }
    proof {
        assert(s@.take(i as int) == s@);
    }
    Some(acc)
}

/// What a line of digits with an optional leading `+` reads as: the form
/// in which an unsigned whole number is written.
pub open spec fn unsigned_of(s: Seq<char>) -> Option<u64> {
    let body = if s.len() > 0 && s[0] == '+' {
        s.skip(1)
    } else {
        s
    };
    if body.len() > 0 {
        fits_u64(digits_of(body))
    } else {
        None
    }
}

/// The negative of `v`.
pub open spec fn negated(v: Option<int>) -> Option<int> {
    match v {
        Some(x) => Some(-x),
        None => None,
    }
}

/// What a line of digits with an optional leading `+` or `-` reads as: the
/// form in which a signed whole number is written.
pub open spec fn signed_of(s: Seq<char>) -> Option<i64> {
    if s.len() > 0 && s[0] == '-' {
        if s.len() > 1 {
            fits_i64(negated(digits_of(s.skip(1))))
        } else {
            None
        }
    } else if s.len() > 0 && s[0] == '+' {
        if s.len() > 1 {
            fits_i64(digits_of(s.skip(1)))
        } else {
            None
        }
    } else if s.len() > 0 {
        fits_i64(digits_of(s))
    } else {
        None
    }
}

/// Reads an unsigned whole number: an optional `+`, then one digit or more.
pub fn parse_u64(s: &Vec<char>) -> (r: Option<u64>)
    ensures
        r == unsigned_of(s@),
{
    let n = s.len();
    if n == 0 {
        return None;
    }
    let from: usize = if s[0] == '+' {
        1
    } else {
        0
    };
    if from == n {
        return None;
    }
    let body = slice_chars(s, from, n);
    proof {
        assert(s@.skip(1) == s@.subrange(1, n as int));
        assert(s@ == s@.subrange(0, n as int));
    }
    parse_digits(&body)
}

/// Reads a signed whole number: an optional `+` or `-`, then one digit or
/// more.
pub fn parse_i64(s: &Vec<char>) -> (r: Option<i64>)
    ensures
        r == signed_of(s@),
{
    let n = s.len();
    if n == 0 {
        return None;
    }
    let negative = s[0] == '-';
    let from: usize = if negative || s[0] == '+' {
        1
    } else {
        0
    };
    if from == n {
        return None;
    }
    let body = slice_chars(s, from, n);
    proof {
        assert(s@.skip(1) == s@.subrange(1, n as int));
        assert(s@ == s@.subrange(0, n as int));
    }
    match parse_digits(&body) {
        None => {
            proof {
                if all_digits(body@) {
                    lemma_digits_value_grows(body@, 0);
                }
            }
            None
        },
        Some(m) => {
            if negative {
                if m <= 0x7fff_ffff_ffff_ffff {
                    Some(-(m as i64))
                } else if m == 0x8000_0000_0000_0000 {
                    Some(i64::MIN)
                } else {
                    None
                }
            } else {
                if m <= 0x7fff_ffff_ffff_ffff {
                    Some(m as i64)
                } else {
                    None
                }
            }
        },
    }
}

/// The first index at or after `i` that holds `c`, or the length of `s`
/// when there is none.
pub open spec fn find_char(s: Seq<char>, c: char, i: int) -> int
    decreases s.len() - i,
{
    if 0 <= i < s.len() && s[i] != c {
        find_char(s, c, i + 1)
    } else {
        i
    }
}

/// [`find_char`] stops within `s`, at a `c`, having passed none.
pub proof fn lemma_find_char_bounds(s: Seq<char>, c: char, i: int)
    requires
        0 <= i <= s.len(),
    ensures
        i <= find_char(s, c, i) <= s.len(),
        find_char(s, c, i) < s.len() ==> s[find_char(s, c, i)] == c,
        forall|j: int| i <= j < find_char(s, c, i) ==> #[trigger] s[j] != c,
    decreases s.len() - i,
{
    if i < s.len() && s[i] != c {
        lemma_find_char_bounds(s, c, i + 1);
    }
}

/// Finds the first `c` in `s` at or after index `i`.
pub fn find_char_from(s: &Vec<char>, c: char, i: usize) -> (r: usize)
    requires
        i <= s.len(),
    ensures
        r == find_char(s@, c, i as int),
        i <= r <= s.len(),
{
    let mut k: usize = i;
    while k < s.len() && s[k] != c
        invariant
            i <= k <= s.len(),
            find_char(s@, c, i as int) == find_char(s@, c, k as int),
        decreases s.len() - k,
    {
        k += 1;
    }
    k
}

/// The thousandths that the digits `f` after a decimal point stand for.
/// Digits after the third are dropped.
pub open spec fn fraction_millis(f: Seq<char>) -> int {
    (if f.len() > 0 {
        digit_value(f[0]) * 100
    } else {
        0
    }) + (if f.len() > 1 {
        digit_value(f[1]) * 10
    } else {
        0
    }) + (if f.len() > 2 {
        digit_value(f[2])
    } else {
        0
    })
}

/// The digits of `s` before its first decimal point.
pub open spec fn whole_part(s: Seq<char>) -> Seq<char> {
    s.subrange(0, find_char(s, '.', 0))
}

/// The characters of `s` after its first decimal point; empty without one.
pub open spec fn fraction_part(s: Seq<char>) -> Seq<char> {
    let dot = find_char(s, '.', 0);
    if dot < s.len() {
        s.subrange(dot + 1, s.len() as int)
    } else {
        Seq::empty()
    }
}

/// The milliseconds in an unsigned decimal number of seconds: digits, then
/// optionally a point and more digits, with a digit on at least one side.
/// What lies beyond the third decimal place is dropped.
pub open spec fn millis_of(s: Seq<char>) -> Option<int> {
    let whole = whole_part(s);
    let frac = fraction_part(s);
    if all_digits(whole) && all_digits(frac) && whole.len() + frac.len() > 0 {
        Some(digits_value(whole) * 1000 + fraction_millis(frac))
    } else {
        None
    }
}

/// The milliseconds in a decimal number of seconds that may start with a
/// sign.
pub open spec fn signed_millis_of(s: Seq<char>) -> Option<int> {
    if s.len() > 0 && s[0] == '-' {
        negated(millis_of(s.skip(1)))
    } else if s.len() > 0 && s[0] == '+' {
        millis_of(s.skip(1))
    } else {
        millis_of(s)
    }
}

/// The number that the digit `c` stands for.
fn digit_of(c: char) -> (d: u64)
    requires
        is_digit(c),
    ensures
        d == digit_value(c),
        d <= 9,
{
    (c as u32 - 0x30) as u64
}

/// Whether `s` holds digits only.
pub fn only_digits(s: &Vec<char>) -> (r: bool)
    ensures
        r == all_digits(s@),
{
    let mut i: usize = 0;
    while i < s.len()
        invariant
            i <= s.len(),
            forall|j: int| 0 <= j < i ==> is_digit(#[trigger] s@[j]),
        decreases s.len() - i,
    {
        if !is_digit_char(s[i]) {
            return false;
        }
        i += 1;
    }
    true
}

/// Reads an unsigned decimal number of seconds as milliseconds.
pub fn parse_millis(s: &Vec<char>) -> (r: Option<u64>)
    ensures
        r == fits_u64(millis_of(s@)),
{
    let n = s.len();
    let dot = find_char_from(s, '.', 0);
    let whole = slice_chars(s, 0, dot);
    let frac = if dot < n {
        slice_chars(s, dot + 1, n)
    } else {
        Vec::new()
    };
    assert(whole@ == whole_part(s@));
    assert(frac@ == fraction_part(s@));
    if whole.len() + frac.len() == 0 {
        return None;
    }
    if !only_digits(&frac) {
        return None;
    }
    let mut thousandths: u64 = 0;
    if frac.len() > 0 {
        thousandths = thousandths + digit_of(frac[0]) * 100;
    }
    if frac.len() > 1 {
        thousandths = thousandths + digit_of(frac[1]) * 10;
    }
    if frac.len() > 2 {
        thousandths = thousandths + digit_of(frac[2]);
    }
    assert(thousandths == fraction_millis(frac@));
    match parse_digits(&whole) {
        None => {
            proof {
                if all_digits(whole@) {
                    lemma_digits_value_grows(whole@, 0);
                }
            }
            None
        },
        Some(secs) => {
            if secs > (u64::MAX - thousandths) / 1000 {
                None
            } else {
                Some(secs * 1000 + thousandths)
            }
        },
    }
}

/// Reads a decimal number of seconds with an optional sign as
/// milliseconds.
pub fn parse_signed_millis(s: &Vec<char>) -> (r: Option<i64>)
    ensures
        r == fits_i64(signed_millis_of(s@)),
{
    let n = s.len();
    let negative = n > 0 && s[0] == '-';
    let from: usize = if n > 0 && (negative || s[0] == '+') {
        1
    } else {
        0
    };
    let body = slice_chars(s, from, n);
    proof {
        assert(s@.skip(1) == s@.subrange(1, n as int));
        assert(s@ == s@.subrange(0, n as int));
    }
    match parse_millis(&body) {
        None => {
            proof {
                if millis_of(body@) is Some {
                    lemma_digits_value_grows(whole_part(body@), 0);
                }
            }
            None
        },
        Some(m) => {
            if negative {
                if m <= 0x7fff_ffff_ffff_ffff {
                    Some(-(m as i64))
                } else if m == 0x8000_0000_0000_0000 {
                    Some(i64::MIN)
                } else {
                    None
                }
            } else {
                if m <= 0x7fff_ffff_ffff_ffff {
                    Some(m as i64)
                } else {
                    None
                }
            }
        },
    }
}

/// The milliseconds in a time of day written as hours, minutes and
/// seconds with a colon between them: exactly two colons, and an unsigned
/// decimal number in each of the three places.
pub open spec fn clock_millis_of(s: Seq<char>) -> Option<int> {
    let c1 = find_char(s, ':', 0);
    let c2 = find_char(s, ':', c1 + 1);
    let c3 = find_char(s, ':', c2 + 1);
    if c1 < c2 < s.len() && c3 >= s.len() {
        match (
            millis_of(s.subrange(0, c1)),
            millis_of(s.subrange(c1 + 1, c2)),
            millis_of(s.subrange(c2 + 1, s.len() as int)),
        ) {
            (Some(h), Some(m), Some(sec)) => Some(h * 3600 + m * 60 + sec),
            _ => None,
        }
    } else {
        None
    }
}

/// An unsigned decimal number of seconds is no negative number of
/// milliseconds.
pub proof fn lemma_millis_nonnegative(s: Seq<char>)
    ensures
        millis_of(s) matches Some(v) ==> v >= 0,
{
    if millis_of(s) is Some {
        lemma_digits_value_grows(whole_part(s), 0);
        let f = fraction_part(s);
        if f.len() > 0 {
            assert(is_digit(f[0]));
        }
        if f.len() > 1 {
            assert(is_digit(f[1]));
        }
        if f.len() > 2 {
            assert(is_digit(f[2]));
        }
    }
}

/// Reads a time written as `hours:minutes:seconds` as milliseconds.
pub fn parse_clock_millis(s: &Vec<char>) -> (r: Option<u64>)
    ensures
        r == fits_u64(clock_millis_of(s@)),
{
    let n = s.len();
    let c1 = find_char_from(s, ':', 0);
    if c1 >= n {
        proof {
            lemma_find_char_bounds(s@, ':', 0);
            assert(find_char(s@, ':', c1 + 1) == c1 + 1);
        }
        return None;
    }
    let c2 = find_char_from(s, ':', c1 + 1);
    if c2 >= n {
        return None;
    }
    let c3 = find_char_from(s, ':', c2 + 1);
    if c3 < n {
        return None;
    }
    let hours = slice_chars(s, 0, c1);
    let minutes = slice_chars(s, c1 + 1, c2);
    let seconds = slice_chars(s, c2 + 1, n);
    proof {
        lemma_millis_nonnegative(hours@);
        lemma_millis_nonnegative(minutes@);
        lemma_millis_nonnegative(seconds@);
    }
    let h = match parse_millis(&hours) {
        Some(h) => h,
        None => {
            return None;
        },
    };
    let m = match parse_millis(&minutes) {
        Some(m) => m,
        None => {
            return None;
        },
    };
    let sec = match parse_millis(&seconds) {
        Some(sec) => sec,
        None => {
            return None;
        },
    };
    let total: u128 = (h as u128) * 3600 + (m as u128) * 60 + (sec as u128);
    if total > u64::MAX as u128 {
        None
    } else {
        Some(total as u64)
    }
}

/// The digit that writes the number `d`, for `d` from 0 to 9.
pub open spec fn digit_char(d: int) -> char {
    ((0x30 + d) as u8) as char
}

/// The digits that write `n` in base ten, without leading zeros.
pub open spec fn decimal_digits(n: nat) -> Seq<char>
    decreases n,
{
    if n < 10 {
        seq![digit_char(n as int)]
    } else {
        decimal_digits(n / 10).push(digit_char((n % 10) as int))
    }
}

/// The digits of `n`, with a zero in front where `n` is below ten.
pub open spec fn two_digits(n: nat) -> Seq<char> {
    if n < 10 {
        seq!['0'] + decimal_digits(n)
    } else {
        decimal_digits(n)
    }
}

/// What is written reads back: the digits of `n` are digits, and their
/// value is `n`.
pub proof fn lemma_decimal_digits_value(n: nat)
    ensures
        decimal_digits(n).len() > 0,
        all_digits(decimal_digits(n)),
        digits_value(decimal_digits(n)) == n,
    decreases n,
{
    if n < 10 {
        let s = decimal_digits(n);
        assert(s.drop_last() == Seq::<char>::empty());
        assert(digits_value(s.drop_last()) == 0);
    } else {
        lemma_decimal_digits_value(n / 10);
        let p = decimal_digits(n / 10);
        let s = decimal_digits(n);
        assert(s.drop_last() == p);
        assert forall|i: int| 0 <= i < s.len() implies is_digit(#[trigger] s[i]) by {
            if i < p.len() {
                assert(s[i] == p[i]);
            }
        }
    }
}

/// Appends the decimal digits of `n` to `out`.
pub fn push_decimal(out: &mut Vec<char>, n: u64)
    ensures
        final(out)@ == old(out)@ + decimal_digits(n as nat),
    decreases n,
{
    if n >= 10 {
        push_decimal(out, n / 10);
    }
    let d: u8 = (n % 10) as u8;
    out.push((0x30 + d) as char);
}

/// Appends the digits of `n` to `out`, at least two of them.
pub fn push_two_digits(out: &mut Vec<char>, n: u64)
    ensures
        final(out)@ == old(out)@ + two_digits(n as nat),
{
    if n < 10 {
        out.push('0');
    }
    push_decimal(out, n);
}

/// The digits that write `f` thousandths after a decimal point, for `f`
/// from 1 to 999: three places, without the zeros at the end.
pub open spec fn fraction_digits(f: nat) -> Seq<char> {
    let d1 = digit_char((f / 100) as int);
    let d2 = digit_char(((f / 10) % 10) as int);
    let d3 = digit_char((f % 10) as int);
    if f % 10 != 0 {
        seq![d1, d2, d3]
    } else if f % 100 != 0 {
        seq![d1, d2]
    } else {
        seq![d1]
    }
}

/// How a time of `ms` milliseconds is written in seconds: the whole
/// seconds, and where thousandths are left over a point and those.
pub open spec fn seconds_text(ms: nat) -> Seq<char> {
    if ms % 1000 == 0 {
        decimal_digits(ms / 1000)
    } else {
        decimal_digits(ms / 1000) + seq!['.'] + fraction_digits(ms % 1000)
    }
}

/// A time that was written in seconds reads back as the same number of
/// milliseconds.
pub proof fn lemma_seconds_text_reads_back(ms: nat)
    ensures
        millis_of(seconds_text(ms)) == Some(ms as int),
{
    let whole = decimal_digits(ms / 1000);
    let s = seconds_text(ms);
    lemma_decimal_digits_value(ms / 1000);
    lemma_find_char_bounds(s, '.', 0);
    let dot = find_char(s, '.', 0);
    if ms % 1000 == 0 {
        if dot < s.len() {
            assert(is_digit(s[dot]));
        }
        assert(whole_part(s) =~= whole);
        assert(fraction_part(s) =~= Seq::<char>::empty());
    } else {
        let f = ms % 1000;
        let frac = fraction_digits(f);
        assert(s[whole.len() as int] == '.');
        if dot < whole.len() {
            assert(s[dot] == whole[dot]);
            assert(is_digit(whole[dot]));
        }
        assert(dot == whole.len());
        assert(whole_part(s) =~= whole);
        assert(fraction_part(s) =~= frac);
        assert(all_digits(frac));
        assert(fraction_millis(frac) == f);
    }
}

/// Writes a time of `ms` milliseconds in seconds.
pub fn format_seconds(ms: u64) -> (out: Vec<char>)
    ensures
        out@ == seconds_text(ms as nat),
{
    let mut out: Vec<char> = Vec::new();
    push_decimal(&mut out, ms / 1000);
    let f: u64 = ms % 1000;
    if f != 0 {
        out.push('.');
        let d1: u8 = (f / 100) as u8;
        let d2: u8 = ((f / 10) % 10) as u8;
        let d3: u8 = (f % 10) as u8;
        out.push((0x30 + d1) as char);
        if f % 100 != 0 {
            out.push((0x30 + d2) as char);
        }
        if f % 10 != 0 {
            out.push((0x30 + d3) as char);
        }
    }
    out
}

} // verus!
