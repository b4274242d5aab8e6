//! Non-negative rational numbers written in decimal notation, and the
//! rounding rules the size computations use.
use vstd::prelude::*;
use crate::text::chars_of;

verus! {

/// At most this many decimal digits are accepted in a written number, so that
/// its value and its denominator both fit in a `u64`.
pub const MAX_DECIMAL_DIGITS: usize = 18;

/// The non-negative rational number `num / den`.
#[derive(Clone, Copy, Debug, PartialEq, Eq, Structural)]
pub struct Ratio {
    pub num: u64,
    pub den: u64,
}

impl Ratio {
    /// A ratio with a non-zero denominator.
    pub open spec fn wf(&self) -> bool {
        self.den >= 1
    }

    /// The whole number `n`.
    pub fn whole(n: u64) -> (r: Ratio)
        ensures
            r.num == n,
            r.den == 1,
    {
        Ratio { num: n, den: 1 }
    }
}

/// `a <= b` as rational numbers.
pub open spec fn ratio_le(a: Ratio, b: Ratio) -> bool {
    a.num * b.den <= b.num * a.den
}

/// `a == b` as rational numbers.
pub open spec fn ratio_eq(a: Ratio, b: Ratio) -> bool {
    a.num * b.den == b.num * a.den
}

/// The least integer that is not below `r`.
pub open spec fn ceil_of(r: Ratio) -> int {
    (r.num + r.den - 1) / (r.den as int)
}

/// `n * r` rounded to the nearest integer, halves rounding up.
pub open spec fn round_scaled(n: int, r: Ratio) -> int {
    (2 * n * r.num + r.den) / (2 * r.den as int)
}

/// `n * r / 100` rounded to the nearest integer, halves rounding up.
pub open spec fn round_percent(n: int, r: Ratio) -> int {
    (2 * n * r.num + 100 * r.den) / (200 * r.den as int)
}

/// The exact product of two `u64` values.
pub fn mul_wide(a: u64, b: u64) -> (r: u128)
    ensures
        r == a * b,
{
    proof {
        assert(a * b <= u64::MAX * u64::MAX) by (nonlinear_arith)
            requires a <= u64::MAX, b <= u64::MAX;
    }
    (a as u128) * (b as u128)
}

/// Compares two ratios by value.
pub fn ratio_less_or_equal(a: Ratio, b: Ratio) -> (r: bool)
    requires
        a.wf(),
        b.wf(),
    ensures
        r == ratio_le(a, b),
{
    mul_wide(a.num, b.den) <= mul_wide(b.num, a.den)
}

/// Tests two ratios for equal value.
pub fn ratio_equal(a: Ratio, b: Ratio) -> (r: bool)
    requires
        a.wf(),
        b.wf(),
    ensures
        r == ratio_eq(a, b),
{
    mul_wide(a.num, b.den) == mul_wide(b.num, a.den)
}

/// The least integer that is not below `r`.
pub fn ceil_ratio(r: Ratio) -> (c: u64)
    requires
        r.wf(),
    ensures
        c == ceil_of(r),
{
    let q = r.num / r.den;
    if r.num % r.den == 0 {
        proof {
            assert(ceil_of(r) == q) by (nonlinear_arith)
                requires r.num % r.den == 0, q == r.num / r.den, r.den >= 1;
        }
        q
    } else {
        proof {
            assert(ceil_of(r) == q + 1) by (nonlinear_arith)
                requires r.num % r.den != 0, q == r.num / r.den, r.den >= 1;
            assert(q < u64::MAX) by (nonlinear_arith)
                requires q == r.num / r.den, r.den >= 1, r.num % r.den != 0, r.num <= u64::MAX;
        }
        q + 1
    }
}

pub open spec fn is_digit(c: char) -> bool {
    '0' <= c && c <= '9'
}

pub open spec fn all_digits(s: Seq<char>) -> bool {
    forall|i: int| 0 <= i < s.len() ==> is_digit(#[trigger] s[i])
}

/// The value of a string of decimal digits.
pub open spec fn digits_value(s: Seq<char>) -> nat
    decreases s.len(),
{
    if s.len() == 0 {
        0
    } else {
        digits_value(s.drop_last()) * 10 + (s.last() as nat - '0' as nat) as nat
    }
}

pub open spec fn pow10(n: nat) -> nat
    decreases n,
{
    if n == 0 {
        1
    } else {
        10 * pow10((n - 1) as nat)
    }
}

/// A whole number written as 1 to `MAX_DECIMAL_DIGITS` decimal digits.
pub open spec fn whole_text_value(s: Seq<char>) -> Option<u64> {
    if 1 <= s.len() <= MAX_DECIMAL_DIGITS && all_digits(s) {
        Some(digits_value(s) as u64)
    } else {
        None
    }
}

/// The text splits at position `i` into digits, a dot, and digits, with at
/// least one digit and at most `MAX_DECIMAL_DIGITS` digits in all.
pub open spec fn dot_split_at(s: Seq<char>, i: int) -> bool {
    &&& 0 <= i < s.len()
    &&& s[i] == '.'
    &&& all_digits(s.take(i))
    &&& all_digits(s.skip(i + 1))
    &&& 2 <= s.len() <= MAX_DECIMAL_DIGITS + 1
}

/// A decimal number: digits, optionally with one dot among or around them
/// (`"2"`, `"2.5"`, `".5"`, `"5."`), with 1 to `MAX_DECIMAL_DIGITS` digits.
/// Its value keeps the written digits: `"2.50"` is 250/100.
pub open spec fn decimal_text_value(s: Seq<char>) -> Option<Ratio> {
    if 1 <= s.len() <= MAX_DECIMAL_DIGITS && all_digits(s) {
        Some(Ratio { num: digits_value(s) as u64, den: 1 })
    } else if exists|i: int| dot_split_at(s, i) {
        let i = choose|i: int| dot_split_at(s, i);
        Some(
            Ratio {
                num: digits_value(s.take(i) + s.skip(i + 1)) as u64,
                den: pow10((s.len() - i - 1) as nat) as u64,
            },
        )
    } else {
        None
    }
}

pub proof fn lemma_pow10_positive(n: nat)
    ensures
        pow10(n) >= 1,
    decreases n,
{
    if n > 0 {
        lemma_pow10_positive((n - 1) as nat);
    }
}

pub proof fn lemma_pow10_monotone(a: nat, b: nat)
    requires
        a <= b,
    ensures
        pow10(a) <= pow10(b),
    decreases b,
{
    if a < b {
        lemma_pow10_monotone(a, (b - 1) as nat);
        lemma_pow10_positive((b - 1) as nat);
    }
}

pub proof fn lemma_digits_value_bound(s: Seq<char>)
    requires
        all_digits(s),
    ensures
        digits_value(s) < pow10(s.len()),
    decreases s.len(),
{
    if s.len() > 0 {
        let t = s.drop_last();
        assert(all_digits(t)) by {
            assert forall|i: int| 0 <= i < t.len() implies is_digit(#[trigger] t[i]) by {
                assert(t[i] == s[i]);
            }
        }
        lemma_digits_value_bound(t);
        assert(is_digit(s[s.len() - 1]));
    }
}

/// 10^18 fits comfortably in a u64.
pub proof fn lemma_pow10_18()
    ensures
        pow10(18) == 1_000_000_000_000_000_000,
{
    reveal_with_fuel(pow10, 19);
}

/// The ten digits as characters.
pub fn char_is_digit(c: char) -> (r: bool)
    ensures
        r == is_digit(c),
{
    '0' <= c && c <= '9'
}

/// `10^n`.
pub fn power_of_ten(n: usize) -> (r: u64)
    requires
        n <= MAX_DECIMAL_DIGITS,
    ensures
        r == pow10(n as nat),
{
    let mut r: u64 = 1;
    let mut k: usize = 0;
    while k < n
        invariant
            k <= n <= MAX_DECIMAL_DIGITS,
            r == pow10(k as nat),
        decreases n - k,
    {
        proof {
            lemma_pow10_monotone((k + 1) as nat, 18);
            lemma_pow10_18();
        }
        r = r * 10;
        k = k + 1;
    }
    r
}

/// Appends one digit to a digit string's value.
proof fn lemma_digits_push(t: Seq<char>, c: char)
    ensures
        digits_value(t.push(c)) == digits_value(t) * 10 + (c as nat - '0' as nat) as nat,
{
    assert(t.push(c).drop_last() =~= t);
}

/// Digit strings stay digit strings when a digit is appended.
proof fn lemma_all_digits_push(t: Seq<char>, c: char)
    requires
        all_digits(t),
        is_digit(c),
    ensures
        all_digits(t.push(c)),
{
    assert forall|i: int| 0 <= i < t.push(c).len() implies is_digit(#[trigger] t.push(c)[i]) by {
        if i < t.len() {
            assert(t.push(c)[i] == t[i]);
        }
    }
}

/// The value of a digit string of at most `MAX_DECIMAL_DIGITS - 1` digits,
/// times ten, plus a digit, fits below 10^18.
proof fn lemma_next_digit_fits(t: Seq<char>, c: char)
    requires
        all_digits(t),
        t.len() < MAX_DECIMAL_DIGITS,
        is_digit(c),
    ensures
        digits_value(t) * 10 + (c as nat - '0' as nat) < 1_000_000_000_000_000_000,
{
    lemma_digits_value_bound(t);
    lemma_pow10_monotone(t.len(), 17);
    reveal_with_fuel(pow10, 18);
}

/// Reads `cs[lo..hi]` as a whole number of 1 to `MAX_DECIMAL_DIGITS` digits.
pub fn parse_whole_chars(cs: &Vec<char>, lo: usize, hi: usize) -> (r: Option<u64>)
    requires
        lo <= hi <= cs.len(),
    ensures
        r == whole_text_value(cs@.subrange(lo as int, hi as int)),
{
    let ghost s = cs@.subrange(lo as int, hi as int);
    if hi - lo < 1 || hi - lo > MAX_DECIMAL_DIGITS {
        return None;
    }
    let mut v: u64 = 0;
    let mut i: usize = lo;
    while i < hi
        invariant
            lo <= i <= hi <= cs.len(),
            hi - lo <= MAX_DECIMAL_DIGITS,
            s == cs@.subrange(lo as int, hi as int),
            all_digits(s.take(i - lo)),
            v == digits_value(s.take(i - lo)),
        decreases hi - i,
    {
        let c = cs[i];
        if !char_is_digit(c) {
            assert(s[i - lo] == c);
            return None;
        }
        proof {
            lemma_next_digit_fits(s.take(i - lo), c);
            lemma_digits_push(s.take(i - lo), c);
            lemma_all_digits_push(s.take(i - lo), c);
            assert(s.take(i - lo).push(c) =~= s.take(i + 1 - lo));
        }
        v = v * 10 + ((c as u32) - ('0' as u32)) as u64;
        i = i + 1;
    }
    assert(s.take(hi - lo) =~= s);
    Some(v)
}

/// A dot split of a text is where its one dot stands.
proof fn lemma_dot_split_unique(s: Seq<char>, d: int, j: int)
    requires
        dot_split_at(s, d),
        0 <= j < s.len(),
        s[j] == '.',
    ensures
        j == d,
{
    if j < d {
        assert(s.take(d)[j] == s[j]);
    } else if j > d {
        assert(s.skip(d + 1)[j - d - 1] == s[j]);
    }
}

/// A text with a character that is neither a digit nor the dot at `i` has no
/// dot split at `i`.
proof fn lemma_no_dot_split(s: Seq<char>, k: int, i: int)
    requires
        0 <= k < s.len(),
        !is_digit(s[k]),
        k != i,
    ensures
        !dot_split_at(s, i),
{
    if dot_split_at(s, i) {
        if k < i {
            assert(s.take(i)[k] == s[k]);
        } else {
            assert(s.skip(i + 1)[k - i - 1] == s[k]);
        }
    }
}

/// Reads `cs[lo..hi]` as a decimal number.
pub fn parse_decimal_chars(cs: &Vec<char>, lo: usize, hi: usize) -> (r: Option<Ratio>)
    requires
        lo <= hi <= cs.len(),
    ensures
        r == decimal_text_value(cs@.subrange(lo as int, hi as int)),
        r matches Some(q) ==> q.wf(),
{
    let ghost s = cs@.subrange(lo as int, hi as int);
    // Find the dot, refusing any other character that is not a digit.
    let mut dot: usize = hi;
    let mut i: usize = lo;
    while i < hi
        invariant
            lo <= i <= hi <= cs.len(),
            s == cs@.subrange(lo as int, hi as int),
            dot == hi || (lo <= dot < i && s[dot - lo] == '.'),
            forall|k: int| lo <= k < i && k != dot ==> is_digit(#[trigger] cs@[k]),
        decreases hi - i,
    {
        let c = cs[i];
        if c == '.' {
            if dot != hi {
                proof {
                    assert(s[i - lo] == '.');
                    assert(!is_digit(s[dot - lo]));
                    assert forall|j: int| !dot_split_at(s, j) by {
                        if j != dot - lo {
                            lemma_no_dot_split(s, dot - lo, j);
                        } else {
                            lemma_no_dot_split(s, i - lo, j);
                        }
                    }
                }
                return None;
            }
            dot = i;
        } else if !char_is_digit(c) {
            proof {
                assert(s[i - lo] == c);
                assert forall|j: int| !dot_split_at(s, j) by {
                    if j != i - lo {
                        lemma_no_dot_split(s, i - lo, j);
                    }
                }
            }
            return None;
        }
        i = i + 1;
    }
    if dot == hi {
        proof {
            assert(all_digits(s)) by {
                assert forall|k: int| 0 <= k < s.len() implies is_digit(#[trigger] s[k]) by {
                    assert(s[k] == cs@[lo + k]);
                }
            }
        }
        return match parse_whole_chars(cs, lo, hi) {
            Some(v) => Some(Ratio::whole(v)),
            None => {
                proof {
                    assert forall|j: int| !dot_split_at(s, j) by {
                        if 0 <= j < s.len() {
                            assert(is_digit(s[j]));
                        }
                    }
                }
                None
            },
        };
    }
    let ghost d: int = dot - lo;
    proof {
        assert(s[d] == '.');
        assert(!is_digit(s[d]));
        assert(!all_digits(s));
    }
    if hi - lo < 2 || hi - lo > MAX_DECIMAL_DIGITS + 1 {
        proof {
            assert forall|j: int| !dot_split_at(s, j) by {
            }
        }
        return None;
    }
    proof {
        assert(all_digits(s.take(d))) by {
            assert forall|k: int| 0 <= k < s.take(d).len() implies is_digit(#[trigger] s.take(d)[k]) by {
                assert(s.take(d)[k] == cs@[lo + k]);
            }
        }
        assert(all_digits(s.skip(d + 1))) by {
            assert forall|k: int| 0 <= k < s.skip(d + 1).len() implies is_digit(#[trigger] s.skip(d + 1)[k]) by {
                assert(s.skip(d + 1)[k] == cs@[dot + 1 + k]);
            }
        }
        assert(dot_split_at(s, d));
        let j = choose|j: int| dot_split_at(s, j);
        lemma_dot_split_unique(s, d, j);
    }
    // Collect the value of the digits on both sides of the dot.
    let ghost mut t: Seq<char> = Seq::empty();
    let mut v: u64 = 0;
    let mut i: usize = lo;
    while i < hi
        invariant
            lo <= dot < hi <= cs.len(),
            lo <= i <= hi,
            2 <= hi - lo <= MAX_DECIMAL_DIGITS + 1,
            s == cs@.subrange(lo as int, hi as int),
            d == dot - lo,
            forall|k: int| lo <= k < hi && k != dot ==> is_digit(#[trigger] cs@[k]),
            i <= dot ==> t == s.take(i - lo),
            i > dot ==> t == s.take(d) + s.subrange(d + 1, i - lo),
            t.len() <= MAX_DECIMAL_DIGITS,
            i > dot ==> t.len() == i - lo - 1,
            i <= dot ==> t.len() == i - lo,
            all_digits(t),
            v == digits_value(t),
        decreases hi - i,
    {
        if i != dot {
            let c = cs[i];
            proof {
                assert(is_digit(cs@[i as int]));
                assert(t.len() < MAX_DECIMAL_DIGITS);
                lemma_next_digit_fits(t, c);
                lemma_digits_push(t, c);
                lemma_all_digits_push(t, c);
                if i < dot {
                    assert(t.push(c) =~= s.take(i + 1 - lo));
                } else {
                    assert(t.push(c) =~= s.take(d) + s.subrange(d + 1, i + 1 - lo));
                }
                t = t.push(c);
            }
            v = v * 10 + ((c as u32) - ('0' as u32)) as u64;
        } else {
            proof {
                assert(s.take(d) + s.subrange(d + 1, d + 1) =~= s.take(d));
            }
        }
        i = i + 1;
    }
    proof {
        assert(s.subrange(d + 1, hi - lo) =~= s.skip(d + 1));
    }
    let den = power_of_ten(hi - dot - 1);
    proof {
        lemma_pow10_positive((hi - dot - 1) as nat);
    }
    Some(Ratio { num: v, den })
}

/// A requested scale: a decimal number, or a negative one, which asks for no
/// particular scale and reads as zero.
pub open spec fn scale_text_value(s: Seq<char>) -> Option<Ratio> {
    if s.len() >= 1 && s[0] == '-' {
        match decimal_text_value(s.skip(1)) {
            Some(_) => Some(Ratio { num: 0, den: 1 }),
            None => None,
        }
    } else {
        decimal_text_value(s)
    }
}

/// Reads a requested scale; a negative one reads as zero.
pub fn parse_scale(text: &str) -> (r: Option<Ratio>)
    ensures
        r == scale_text_value(text@),
        r matches Some(q) ==> q.wf(),
{
    let cs = chars_of(text);
    let n = cs.len();
    if n >= 1 && cs[0] == '-' {
        assert(cs@.subrange(1, n as int) =~= text@.skip(1));
        match parse_decimal_chars(&cs, 1, n) {
            Some(_) => Some(Ratio { num: 0, den: 1 }),
            None => None,
        }
    } else {
        assert(cs@.subrange(0, n as int) =~= text@);
        parse_decimal_chars(&cs, 0, n)
    }
}

/// Reads a whole text as a decimal number.
pub fn parse_decimal(text: &str) -> (r: Option<Ratio>)
    ensures
        r == decimal_text_value(text@),
        r matches Some(q) ==> q.wf(),
{
    let cs = chars_of(text);
    assert(cs@.subrange(0, cs@.len() as int) =~= text@);
    parse_decimal_chars(&cs, 0, cs.len())
}

} // verus!
