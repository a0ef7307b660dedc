//! Character-level helpers: whitespace tokens, decimal numbers and
//! message building.
use vstd::prelude::*;
use vstd::string::*;

verus! {

/// Largest magnitude a parsed number may have.
pub const MAG_MAX: u64 = 1_000_000_000_000_000;

pub open spec fn is_space(c: char) -> bool {
    c == ' ' || c == '\t' || c == '\n' || c == '\r'
}

pub open spec fn is_digit(c: char) -> bool {
    '0' <= c && c <= '9'
}

pub open spec fn digit_of(c: char) -> int {
    c as int - '0' as int
}

/// First index at or after `i` that holds no whitespace (or the end).
pub open spec fn skip_spaces(s: Seq<char>, i: int) -> int
    decreases s.len() - i,
{
    if 0 <= i < s.len() && is_space(s[i]) {
        skip_spaces(s, i + 1)
    } else {
        i
    }
}

/// First index at or after `i` that holds whitespace (or the end).
pub open spec fn skip_word(s: Seq<char>, i: int) -> int
    decreases s.len() - i,
{
    if 0 <= i < s.len() && !is_space(s[i]) {
        skip_word(s, i + 1)
    } else {
        i
    }
}

/// Where the `k`-th whitespace-separated token starts (the end if there is none).
pub open spec fn token_start(s: Seq<char>, k: nat) -> int
    decreases k,
{
    if k == 0 {
        skip_spaces(s, 0)
    } else {
        skip_spaces(s, skip_word(s, token_start(s, (k - 1) as nat)))
    }
}

/// The `k`-th whitespace-separated token of `s`.
pub open spec fn token(s: Seq<char>, k: nat) -> Option<Seq<char>> {
    let st = token_start(s, k);
    if st < s.len() {
        Some(s.subrange(st, skip_word(s, st)))
    } else {
        None
    }
}

/// Everything from the start of the `k`-th token to the end of `s`.
pub open spec fn rest_from(s: Seq<char>, k: nat) -> Option<Seq<char>> {
    let st = token_start(s, k);
    if st < s.len() {
        Some(s.subrange(st, s.len() as int))
    } else {
        None
    }
}

pub proof fn lemma_skip_spaces_bounds(s: Seq<char>, i: int)
    requires
        0 <= i <= s.len(),
    ensures
        i <= skip_spaces(s, i) <= s.len(),
    decreases s.len() - i,
{
    if i < s.len() && is_space(s[i]) {
        lemma_skip_spaces_bounds(s, i + 1);
    }
}

pub proof fn lemma_skip_word_bounds(s: Seq<char>, i: int)
    requires
        0 <= i <= s.len(),
    ensures
        i <= skip_word(s, i) <= s.len(),
    decreases s.len() - i,
{
    if i < s.len() && !is_space(s[i]) {
        lemma_skip_word_bounds(s, i + 1);
    }
}

pub proof fn lemma_token_start_bounds(s: Seq<char>, k: nat)
    ensures
        0 <= token_start(s, k) <= s.len(),
    decreases k,
{
    if k == 0 {
        lemma_skip_spaces_bounds(s, 0);
    } else {
        lemma_token_start_bounds(s, (k - 1) as nat);
        let p = token_start(s, (k - 1) as nat);
        lemma_skip_word_bounds(s, p);
        lemma_skip_spaces_bounds(s, skip_word(s, p));
    }
}

pub fn is_space_char(c: char) -> (r: bool)
    ensures
        r == is_space(c),
{
    c == ' ' || c == '\t' || c == '\n' || c == '\r'
}

/// The characters of a string slice.
pub fn chars_of(s: &str) -> (r: Vec<char>)
    ensures
        r@ == s@,
{
    let n = s.unicode_len();
    let mut v: Vec<char> = Vec::new();
    let mut i: usize = 0;
    while i < n
        invariant
            n == s@.len(),
            i <= n,
            v@ == s@.subrange(0, i as int),
        decreases n - i,
    {
        v.push(s.get_char(i));
        i += 1;
    }
    assert(v@ =~= s@);
    v
}

pub fn skip_spaces_at(s: &Vec<char>, i: usize) -> (r: usize)
    requires
        i <= s.len(),
    ensures
        r as int == skip_spaces(s@, i as int),
        i <= r <= s.len(),
{
    let mut j = i;
    while j < s.len() && is_space_char(s[j])
        invariant
            i <= j <= s.len(),
            skip_spaces(s@, j as int) == skip_spaces(s@, i as int),
        decreases s.len() - j,
    {
        j += 1;
    }
    j
}

pub fn skip_word_at(s: &Vec<char>, i: usize) -> (r: usize)
    requires
        i <= s.len(),
    ensures
        r as int == skip_word(s@, i as int),
        i <= r <= s.len(),
{
    let mut j = i;
    while j < s.len() && !is_space_char(s[j])
        invariant
            i <= j <= s.len(),
            skip_word(s@, j as int) == skip_word(s@, i as int),
        decreases s.len() - j,
    {
        j += 1;
    }
    j
}

pub fn token_start_at(s: &Vec<char>, k: usize) -> (r: usize)
    ensures
        r as int == token_start(s@, k as nat),
        r <= s.len(),
{
    let mut st = skip_spaces_at(s, 0);
    let mut t: usize = 0;
    while t < k
        invariant
            t <= k,
            st <= s.len(),
            st as int == token_start(s@, t as nat),
        decreases k - t,
    {
        let e = skip_word_at(s, st);
        st = skip_spaces_at(s, e);
        t += 1;
    }
    st
}

/// Copies `s[lo..hi]`.
pub fn slice_chars(s: &Vec<char>, lo: usize, hi: usize) -> (r: Vec<char>)
    requires
        lo <= hi <= s.len(),
    ensures
        r@ == s@.subrange(lo as int, hi as int),
{
    let mut v: Vec<char> = Vec::new();
    let mut i = lo;
    while i < hi
        invariant
            lo <= i <= hi,
            hi <= s.len(),
            v@ == s@.subrange(lo as int, i as int),
        decreases hi - i,
    {
        v.push(s[i]);
        i += 1;
    }
    v
}

/// The `k`-th token of `s`.
pub fn token_at(s: &Vec<char>, k: usize) -> (r: Option<Vec<char>>)
    ensures
        r.is_some() == token(s@, k as nat).is_some(),
        r.is_some() ==> r.unwrap()@ == token(s@, k as nat).unwrap(),
{
    let st = token_start_at(s, k);
    if st < s.len() {
        let e = skip_word_at(s, st);
        Some(slice_chars(s, st, e))
    } else {
        None
    }
}

/// The text from the `k`-th token on.
pub fn rest_at(s: &Vec<char>, k: usize) -> (r: Option<Vec<char>>)
    ensures
        r.is_some() == rest_from(s@, k as nat).is_some(),
        r.is_some() ==> r.unwrap()@ == rest_from(s@, k as nat).unwrap(),
{
    let st = token_start_at(s, k);
    if st < s.len() {
        Some(slice_chars(s, st, s.len()))
    } else {
        None
    }
}

/// Whether the characters equal those of a string slice.
pub fn chars_eq_str(a: &Vec<char>, b: &str) -> (r: bool)
    ensures
        r == (a@ == b@),
{
    let n = b.unicode_len();
    if a.len() != n {
        return false;
    }
    let mut i: usize = 0;
    while i < n
        invariant
            n == b@.len(),
            a@.len() == n,
            i <= n,
            forall|j: int| 0 <= j < i ==> a@[j] == b@[j],
        decreases n - i,
    {
        if a[i] != b.get_char(i) {
            return false;
        }
        i += 1;
    }
    assert(a@ =~= b@);
    true
}

} // verus!
