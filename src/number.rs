//! Signed decimal numbers: integers, and fixed-point values counted in
//! thousandths.
use vstd::prelude::*;
use crate::text::{is_digit, digit_of, MAG_MAX};

verus! {

pub open spec fn all_digits(t: Seq<char>) -> bool {
    forall|i: int| 0 <= i < t.len() ==> is_digit(#[trigger] t[i])
}

/// The value of a run of decimal digits.
pub open spec fn digits_value(t: Seq<char>) -> int
    decreases t.len(),
{
    if t.len() == 0 {
        0
    } else {
        digits_value(t.drop_last()) * 10 + digit_of(t.last())
    }
}

/// Whether a token is negative, and the characters after its sign.
pub open spec fn split_sign(t: Seq<char>) -> (bool, Seq<char>) {
    if t.len() > 0 && t[0] == '-' {
        (true, t.drop_first())
    } else if t.len() > 0 && t[0] == '+' {
        (false, t.drop_first())
    } else {
        (false, t)
    }
}

/// `m`, negated when `neg`.
pub open spec fn signed(neg: bool, m: int) -> int {
    if neg {
        -m
    } else {
        m
    }
}

/// An optionally signed run of digits whose magnitude is at most `MAG_MAX`.
pub open spec fn int_of(t: Seq<char>) -> Option<int> {
    let (sg, d) = split_sign(t);
    if d.len() > 0 && all_digits(d) && digits_value(d) <= MAG_MAX {
        Some(signed(sg, digits_value(d)))
    } else {
        None
    }
}

/// Index of the first `.` at or after `i` (or the end).
pub open spec fn dot_at(s: Seq<char>, i: int) -> int
    decreases s.len() - i,
{
    if 0 <= i < s.len() && s[i] != '.' {
        dot_at(s, i + 1)
    } else {
        i
    }
}

/// Thousandths given by the first three digits after the point.
pub open spec fn milli_of(f: Seq<char>) -> int {
    if f.len() >= 3 {
        digits_value(f.subrange(0, 3))
    } else if f.len() == 2 {
        digits_value(f) * 10
    } else if f.len() == 1 {
        digits_value(f) * 100
    } else {
        0
    }
}

/// A decimal `[+-]digits[.digits]` or `[+-].digits` in thousandths, digits
/// past the third after the point dropped; its magnitude is at most
/// `MAG_MAX` thousandths.
pub open spec fn fixed_of(t: Seq<char>) -> Option<int> {
    let (sg, d) = split_sign(t);
    let p = dot_at(d, 0);
    let ip = d.subrange(0, p);
    let fp = if p < d.len() { d.subrange(p + 1, d.len() as int) } else { Seq::empty() };
    if (ip.len() > 0 || fp.len() > 0) && all_digits(ip) && all_digits(fp) && digits_value(ip)
        * 1000 + milli_of(fp) <= MAG_MAX {
        Some(signed(sg, digits_value(ip) * 1000 + milli_of(fp)))
    } else {
        None
    }
}

pub proof fn lemma_digits_value_nonneg(t: Seq<char>)
    requires
        all_digits(t),
    ensures
        digits_value(t) >= 0,
    decreases t.len(),
{
    if t.len() > 0 {
        assert(is_digit(t[t.len() - 1]));
        assert(all_digits(t.drop_last()));
        lemma_digits_value_nonneg(t.drop_last());
    }
}

pub open spec fn pow10(n: nat) -> int
    decreases n,
{
    if n == 0 {
        1
    } else {
        pow10((n - 1) as nat) * 10
    }
}

pub proof fn lemma_digits_value_bound(t: Seq<char>)
    requires
        all_digits(t),
    ensures
        0 <= digits_value(t) < pow10(t.len()),
    decreases t.len(),
{
    if t.len() > 0 {
        assert(is_digit(t[t.len() - 1]));
        assert(all_digits(t.drop_last()));
        lemma_digits_value_bound(t.drop_last());
    }
}

pub proof fn lemma_milli_bound(f: Seq<char>)
    requires
        all_digits(f),
    ensures
        0 <= milli_of(f) < 1000,
{
    assert(pow10(0) == 1);
    assert(pow10(1) == 10);
    assert(pow10(2) == 100);
    assert(pow10(3) == 1000);
    if f.len() >= 3 {
        assert(all_digits(f.subrange(0, 3)));
        lemma_digits_value_bound(f.subrange(0, 3));
    } else {
        lemma_digits_value_bound(f);
    }
}

pub proof fn lemma_digits_value_prefix(t: Seq<char>, k: int)
    requires
        all_digits(t),
        0 <= k <= t.len(),
    ensures
        digits_value(t.subrange(0, k)) <= digits_value(t),
    decreases t.len(),
{
    if k < t.len() {
        let u = t.drop_last();
        assert(all_digits(u));
        assert(is_digit(t[t.len() - 1]));
        lemma_digits_value_prefix(u, k);
        lemma_digits_value_nonneg(u);
        assert(u.subrange(0, k) =~= t.subrange(0, k));
    } else {
        assert(t.subrange(0, k) =~= t);
    }
}

pub proof fn lemma_dot_at_bounds(s: Seq<char>, i: int)
    requires
        0 <= i <= s.len(),
    ensures
        i <= dot_at(s, i) <= s.len(),
    decreases s.len() - i,
{
    if i < s.len() && s[i] != '.' {
        lemma_dot_at_bounds(s, i + 1);
    }
}

pub fn is_digit_char(c: char) -> (r: bool)
    ensures
        r == is_digit(c),
{
    '0' <= c && c <= '9'
}

/// The value of the digits `t[lo..hi]`, or `None` where one is no digit or
/// the value exceeds `MAG_MAX`.
pub fn digits_in(t: &Vec<char>, lo: usize, hi: usize) -> (r: Option<u64>)
    requires
        lo <= hi <= t.len(),
    ensures
        r.is_some() == (all_digits(t@.subrange(lo as int, hi as int)) && digits_value(
            t@.subrange(lo as int, hi as int),
        ) <= MAG_MAX),
        r.is_some() ==> r.unwrap() == digits_value(t@.subrange(lo as int, hi as int)),
{
    let ghost s = t@.subrange(lo as int, hi as int);
    let mut acc: u64 = 0;
    let mut i = lo;
    while i < hi
        invariant
            lo <= i <= hi,
            hi <= t.len(),
            s == t@.subrange(lo as int, hi as int),
            all_digits(t@.subrange(lo as int, i as int)),
            acc == digits_value(t@.subrange(lo as int, i as int)),
            acc <= MAG_MAX,
        decreases hi - i,
    {
        let c = t[i];
        if !is_digit_char(c) {
            assert(s[i - lo] == c);
            return None;
        }
        let d = (c as u32 - '0' as u32) as u64;
        let ghost pre = t@.subrange(lo as int, i as int + 1);
        assert(pre.drop_last() =~= t@.subrange(lo as int, i as int));
        assert(all_digits(pre));
        if acc > (MAG_MAX - d) / 10 {
            proof {
                assert(digits_value(pre) > MAG_MAX);
                if all_digits(s) {
                    lemma_digits_value_prefix(s, i - lo + 1);
                    assert(s.subrange(0, i - lo + 1) =~= pre);
                }
            }
            return None;
        }
        acc = acc * 10 + d;
        i += 1;
    }
    Some(acc)
}

/// Reads an integer token.
pub fn parse_int(t: &Vec<char>) -> (r: Option<i64>)
    ensures
        r.is_some() == int_of(t@).is_some(),
        r.is_some() ==> r.unwrap() == int_of(t@).unwrap(),
{
    let neg = t.len() > 0 && t[0] == '-';
    let start: usize = if t.len() > 0 && (t[0] == '-' || t[0] == '+') { 1 } else { 0 };
    assert(split_sign(t@).1 =~= t@.subrange(start as int, t.len() as int));
    if start >= t.len() {
        return None;
    }
    match digits_in(t, start, t.len()) {
        Some(v) => {
            assert(int_of(t@) == Some(signed(neg, v as int)));
            if neg {
                Some(-(v as i64))
            } else {
                Some(v as i64)
            }
        },
        None => None,
    }
}

/// Position of the first `.` in `t[lo..]` (or the end).
fn dot_from(t: &Vec<char>, lo: usize) -> (r: usize)
    requires
        lo <= t.len(),
    ensures
        lo <= r <= t.len(),
        r - lo == dot_at(t@.subrange(lo as int, t.len() as int), 0),
{
    let ghost d = t@.subrange(lo as int, t.len() as int);
    let mut p = lo;
    while p < t.len() && t[p] != '.'
        invariant
            lo <= p <= t.len(),
            d == t@.subrange(lo as int, t.len() as int),
            dot_at(d, (p - lo) as int) == dot_at(d, 0),
        decreases t.len() - p,
    {
        assert(d[p - lo] == t@[p as int]);
        p += 1;
    }
    proof {
        if p < t.len() {
            assert(d[p - lo] == t@[p as int]);
        }
    }
    p
}

/// Thousandths of the fraction digits `t[fs..]`, or `None` where one is no digit.
fn fraction_milli(t: &Vec<char>, fs: usize) -> (r: Option<u64>)
    requires
        fs <= t.len(),
    ensures
        r.is_some() == all_digits(t@.subrange(fs as int, t.len() as int)),
        r.is_some() ==> r.unwrap() == milli_of(t@.subrange(fs as int, t.len() as int)),
{
    let ghost fp = t@.subrange(fs as int, t.len() as int);
    let mut q = fs;
    while q < t.len()
        invariant
            fs <= q <= t.len(),
            fp == t@.subrange(fs as int, t.len() as int),
            forall|j: int| fs <= j < q ==> is_digit(#[trigger] t@[j]),
        decreases t.len() - q,
    {
        if !is_digit_char(t[q]) {
            assert(fp[q - fs] == t@[q as int]);
            return None;
        }
        q += 1;
    }
    assert(all_digits(fp)) by {
        assert forall|j: int| 0 <= j < fp.len() implies is_digit(#[trigger] fp[j]) by {
            assert(fp[j] == t@[fs + j]);
        }
    }
    proof {
        lemma_milli_bound(fp);
        lemma_digits_value_bound(fp);
    }
    let n = t.len() - fs;
    if n >= 3 {
        assert(fp.subrange(0, 3) =~= t@.subrange(fs as int, fs as int + 3));
        assert(all_digits(fp.subrange(0, 3)));
        digits_in(t, fs, fs + 3)
    } else {
        assert(pow10(0) == 1);
        assert(pow10(1) == 10);
        assert(pow10(2) == 100);
        match digits_in(t, fs, t.len()) {
            Some(v) => {
                if n == 2 {
                    Some(v * 10)
                } else if n == 1 {
                    Some(v * 100)
                } else {
                    Some(0)
                }
            },
            None => None,
        }
    }
}

/// Reads a decimal token as thousandths.
pub fn parse_fixed(t: &Vec<char>) -> (r: Option<i64>)
    ensures
        r.is_some() == fixed_of(t@).is_some(),
        r.is_some() ==> r.unwrap() == fixed_of(t@).unwrap(),
{
    let neg = t.len() > 0 && t[0] == '-';
    let start: usize = if t.len() > 0 && (t[0] == '-' || t[0] == '+') { 1 } else { 0 };
    let ghost d = t@.subrange(start as int, t.len() as int);
    assert(split_sign(t@).1 =~= d);
    assert(split_sign(t@).0 == neg);
    let p = dot_from(t, start);
    let ghost dp = p - start;
    let ghost fp = if p < t.len() { d.subrange(dp + 1, d.len() as int) } else { Seq::empty() };
    assert(d.subrange(0, dp) =~= t@.subrange(start as int, p as int));
    proof {
        if p < t.len() {
            assert(fp =~= t@.subrange(p + 1, t.len() as int));
        }
        if all_digits(fp) {
            lemma_milli_bound(fp);
        }
    }
    if p == start && p + 1 >= t.len() {
        return None;
    }
    let ip = match digits_in(t, start, p) {
        Some(v) => v,
        None => {
            return None;
        },
    };
    let mut milli: u64 = 0;
    if p < t.len() {
        match fraction_milli(t, p + 1) {
            Some(m) => {
                milli = m;
            },
            None => {
                return None;
            },
        }
    } else {
        assert(all_digits(fp));
    }
    assert(milli == milli_of(fp));
    if ip > (MAG_MAX - milli) / 1000 {
        return None;
    }
    let mag = ip * 1000 + milli;
    assert(fixed_of(t@) == Some(signed(neg, mag as int)));
    if neg {
        Some(-(mag as i64))
    } else {
        Some(mag as i64)
    }
}

} // verus!
