//! Fixed-point measurement values.
//!
//! Readings and thresholds are decimal numbers that the monitor only ever
//! compares and prints to two decimal places, so the library holds them in
//! hundredths of a unit. `parse_decimal` reads the decimal text that the
//! sensor platform or the configuration carries, and `format_value` prints a
//! value back with exactly two digits after the point.

use vstd::prelude::*;
use vstd::string::StrSliceExecFns;

verus! {

/// A measurement or threshold value, in hundredths of a unit (for CO2
/// readings: hundredths of one ppm).
#[derive(Clone, Copy, Debug, PartialEq, Eq, Structural)]
pub struct Ppm {
    pub centi: i64,
}

pub open spec fn is_digit_char(c: char) -> bool {
    c == '0' || c == '1' || c == '2' || c == '3' || c == '4' || c == '5' || c == '6' || c == '7'
        || c == '8' || c == '9'
}

pub open spec fn digit_of_char(c: char) -> int {
    if c == '0' {
        0
    } else if c == '1' {
        1
    } else if c == '2' {
        2
    } else if c == '3' {
        3
    } else if c == '4' {
        4
    } else if c == '5' {
        5
    } else if c == '6' {
        6
    } else if c == '7' {
        7
    } else if c == '8' {
        8
    } else {
        9
    }
}

pub open spec fn digit_char(d: int) -> char {
    if d == 0 {
        '0'
    } else if d == 1 {
        '1'
    } else if d == 2 {
        '2'
    } else if d == 3 {
        '3'
    } else if d == 4 {
        '4'
    } else if d == 5 {
        '5'
    } else if d == 6 {
        '6'
    } else if d == 7 {
        '7'
    } else if d == 8 {
        '8'
    } else {
        '9'
    }
}

pub open spec fn all_digits(s: Seq<char>) -> bool {
    forall|i: int| 0 <= i < s.len() ==> is_digit_char(#[trigger] s[i])
}

/// The value of a digit string read most-significant first.
pub open spec fn digits_val(s: Seq<char>) -> int
    decreases s.len(),
{
    if s.len() == 0 {
        0
    } else {
        10 * digits_val(s.drop_last()) + digit_of_char(s.last())
    }
}

pub open spec fn pow10(n: nat) -> int
    decreases n,
{
    if n == 0 {
        1
    } else {
        10 * pow10((n - 1) as nat)
    }
}

/// How many integer digits a value may carry; keeps every parsed value well
/// inside `i64` once scaled to hundredths.
pub open spec fn max_int_digits() -> int {
    15
}

/// The hundredths contributed by the fraction digits: the first two count,
/// and the third rounds them to the nearest hundredth, ties upward.
pub open spec fn centi_frac(f: Seq<char>) -> int
    recommends
        f.len() >= 1,
{
    10 * digit_of_char(f[0]) + (if f.len() >= 2 {
        digit_of_char(f[1])
    } else {
        0
    }) + (if f.len() >= 3 && digit_of_char(f[2]) >= 5 {
        1int
    } else {
        0int
    })
}

/// `i` splits `s` into a non-empty integer part, a dot, and a non-empty
/// fraction part, with the integer part short enough to scale safely.
pub open spec fn dot_split_ok(s: Seq<char>, i: int) -> bool {
    &&& 1 <= i <= max_int_digits()
    &&& i + 1 < s.len()
    &&& s[i] == '.'
    &&& all_digits(s.subrange(0, i))
    &&& all_digits(s.subrange(i + 1, s.len() as int))
}

/// The value, in hundredths, of an unsigned decimal numeral: either all
/// digits, or digits on both sides of a single dot.
pub open spec fn unsigned_centi(s: Seq<char>) -> Option<int> {
    if 1 <= s.len() <= max_int_digits() && all_digits(s) {
        Some(100 * digits_val(s))
    } else if exists|i: int| dot_split_ok(s, i) {
        let i = choose|i: int| dot_split_ok(s, i);
        Some(100 * digits_val(s.subrange(0, i)) + centi_frac(s.subrange(i + 1, s.len() as int)))
    } else {
        None
    }
}

/// The value, in hundredths, of a decimal numeral with an optional leading
/// minus sign; `None` where the text is not such a numeral.
pub open spec fn decimal_centi(s: Seq<char>) -> Option<int> {
    if s.len() >= 1 && s[0] == '-' {
        match unsigned_centi(s.subrange(1, s.len() as int)) {
            Some(v) => Some(-v),
            None => None,
        }
    } else {
        unsigned_centi(s)
    }
}

proof fn lemma_digits_val_push(t: Seq<char>, c: char)
    ensures
        digits_val(t.push(c)) == 10 * digits_val(t) + digit_of_char(c),
{
    assert(t.push(c).drop_last() =~= t);
    assert(t.push(c).last() == c);
}

proof fn lemma_pow10_pos(n: nat)
    ensures
        pow10(n) >= 1,
    decreases n,
{
    if n > 0 {
        lemma_pow10_pos((n - 1) as nat);
    }
}

proof fn lemma_pow10_mono(a: nat, b: nat)
    requires
        a <= b,
    ensures
        pow10(a) <= pow10(b),
    decreases b,
{
    if a < b {
        lemma_pow10_mono(a, (b - 1) as nat);
        lemma_pow10_pos((b - 1) as nat);
    }
}

proof fn lemma_pow10_15()
    ensures
        pow10(15) == 1000000000000000,
{
    reveal_with_fuel(pow10, 17);
}

proof fn lemma_dot_split_unique(s: Seq<char>, i: int, j: int)
    requires
        dot_split_ok(s, i),
        dot_split_ok(s, j),
    ensures
        i == j,
{
    if i < j {
        assert(s.subrange(0, j)[i] == s[i]);
        assert(is_digit_char(s[i]));
        assert(!is_digit_char('.'));
    } else if j < i {
        assert(s.subrange(0, i)[j] == s[j]);
        assert(is_digit_char(s[j]));
        assert(!is_digit_char('.'));
    }
}

/// A character that is neither a digit nor a dot rules out every reading of
/// the text as an unsigned decimal numeral.
proof fn lemma_unsigned_none_at(u: Seq<char>, k: int)
    requires
        0 <= k < u.len(),
        !is_digit_char(u[k]),
        u[k] != '.',
    ensures
        unsigned_centi(u) is None,
{
    assert(!all_digits(u));
    assert forall|i: int| !dot_split_ok(u, i) by {
        if dot_split_ok(u, i) {
            if k < i {
                assert(u.subrange(0, i)[k] == u[k]);
            } else if k > i {
                assert(u.subrange(i + 1, u.len() as int)[k - i - 1] == u[k]);
            }
        }
    }
}

/// The digit's value, telling digits and other characters apart.
fn digit_value(c: char) -> (r: Option<u64>)
    ensures
        match r {
            Some(d) => is_digit_char(c) && d == digit_of_char(c) && d <= 9,
            None => !is_digit_char(c),
        },
{
    if c == '0' {
        Some(0)
    } else if c == '1' {
        Some(1)
    } else if c == '2' {
        Some(2)
    } else if c == '3' {
        Some(3)
    } else if c == '4' {
        Some(4)
    } else if c == '5' {
        Some(5)
    } else if c == '6' {
        Some(6)
    } else if c == '7' {
        Some(7)
    } else if c == '8' {
        Some(8)
    } else if c == '9' {
        Some(9)
    } else {
        None
    }
}

fn char_of_digit(d: u64) -> (c: char)
    requires
        d <= 9,
    ensures
        c == digit_char(d as int),
{
    if d == 0 {
        '0'
    } else if d == 1 {
        '1'
    } else if d == 2 {
        '2'
    } else if d == 3 {
        '3'
    } else if d == 4 {
        '4'
    } else if d == 5 {
        '5'
    } else if d == 6 {
        '6'
    } else if d == 7 {
        '7'
    } else if d == 8 {
        '8'
    } else {
        '9'
    }
}

/// Parses the text from `start` on as an unsigned decimal numeral, scaled to
/// hundredths.
fn parse_unsigned_centi(s: &str, start: usize) -> (r: Option<i64>)
    requires
        start <= s@.len(),
    ensures
        match r {
            Some(v) => 0 <= v && unsigned_centi(s@.subrange(start as int, s@.len() as int))
                == Some(v as int),
            None => unsigned_centi(s@.subrange(start as int, s@.len() as int)) is None,
        },
{
    let n = s.unicode_len();
    let ghost u: Seq<char> = s@.subrange(start as int, s@.len() as int);
    proof {
        lemma_pow10_15();
    }
    let mut i: usize = start;
    let mut acc: i64 = 0;
    let mut dot_at: usize = 0;
    let mut saw_dot: bool = false;
    while i < n && !saw_dot
        invariant
            start <= i <= n,
            n == s@.len(),
            u == s@.subrange(start as int, n as int),
            i - start <= max_int_digits(),
            0 <= acc < pow10((i - start) as nat),
            acc == digits_val(u.subrange(0, i - start)),
            forall|j: int| 0 <= j < i - start ==> is_digit_char(#[trigger] u[j]),
            saw_dot ==> i == dot_at && i < n && u[i - start] == '.',
            pow10(15) == 1000000000000000,
        decreases n - i + if saw_dot { 0int } else { 1int },
    {
        let c = s.get_char(i);
        proof {
            assert(u[i - start] == s@[i as int]);
        }
        if c == '.' {
            saw_dot = true;
            dot_at = i;
        } else {
            match digit_value(c) {
                None => {
                    proof {
                        lemma_unsigned_none_at(u, i - start);
                    }
                    return None;
                },
                Some(d) => {
                    if i - start == 15 {
                        // at least sixteen leading digits: every reading fails
                        proof {
                            assert(is_digit_char(u[i - start]));
                            assert forall|q: int| !dot_split_ok(u, q) by {
                                if dot_split_ok(u, q) {
                                    assert(is_digit_char(u[q]));
                                    assert(!is_digit_char('.'));
                                }
                            }
                            assert(u.len() > max_int_digits());
                        }
                        return None;
                    }
                    proof {
                        lemma_pow10_mono((i - start) as nat, 14);
                        assert(u.subrange(0, i - start + 1) =~= u.subrange(0, i - start).push(
                            u[i - start],
                        ));
                        lemma_digits_val_push(u.subrange(0, i - start), u[i - start]);
                    }
                    acc = acc * 10 + (d as i64);
                    i += 1;
                },
            }
        }
    }
    if !saw_dot {
        // the whole text was digits
        proof {
            assert(u.subrange(0, i - start) =~= u);
        }
        if i == start {
            // empty text
            proof {
                assert(u.len() == 0);
                assert forall|q: int| !dot_split_ok(u, q) by {}
            }
            return None;
        }
        proof {
            lemma_pow10_mono((i - start) as nat, 15);
        }
        return Some(acc * 100);
    }
    // a dot at dot_at; the digits before it sit in acc
    let ghost k1: int = dot_at - start;
    proof {
        assert(u[k1] == '.');
        assert(!is_digit_char('.'));
        assert(!all_digits(u));
    }
    if dot_at == start {
        // no integer part before the dot
        proof {
            assert forall|q: int| !dot_split_ok(u, q) by {
                if dot_split_ok(u, q) {
                    assert(u.subrange(0, q)[0] == u[0]);
                }
            }
        }
        return None;
    }
    if dot_at + 1 >= n {
        // no fraction digits after the dot
        proof {
            assert forall|q: int| !dot_split_ok(u, q) by {
                if dot_split_ok(u, q) {
                    if q < k1 {
                        assert(u.subrange(q + 1, u.len() as int)[k1 - q - 1] == u[k1]);
                    } else if q > k1 {
                        assert(u.subrange(0, q)[k1] == u[k1]);
                    }
                }
            }
        }
        return None;
    }
    // validate the fraction digits
    let mut j: usize = dot_at + 1;
    while j < n
        invariant
            dot_at + 1 <= j <= n,
            n == s@.len(),
            start <= dot_at,
            dot_at < n,
            u == s@.subrange(start as int, n as int),
            k1 == dot_at - start,
            u[k1] == '.',
            forall|q: int| k1 + 1 <= q < j - start ==> is_digit_char(#[trigger] u[q]),
        decreases n - j,
    {
        let c = s.get_char(j);
        proof {
            assert(u[j - start] == s@[j as int]);
        }
        match digit_value(c) {
            None => {
                proof {
                    let k2: int = j - start;
                    if c == '.' {
                        // a second dot: no split can stand
                        assert forall|q: int| !dot_split_ok(u, q) by {
                            if dot_split_ok(u, q) {
                                if q < k1 {
                                    assert(u.subrange(q + 1, u.len() as int)[k1 - q - 1] == u[k1]);
                                } else if q > k1 {
                                    assert(u.subrange(0, q)[k1] == u[k1]);
                                } else {
                                    assert(u.subrange(q + 1, u.len() as int)[k2 - q - 1] == u[k2]);
                                }
                            }
                        }
                    } else {
                        lemma_unsigned_none_at(u, k2);
                    }
                }
                return None;
            },
            Some(_) => {
                j += 1;
            },
        }
    }
    // the split at k1 is the one valid reading
    proof {
        assert(all_digits(u.subrange(0, k1))) by {
            assert forall|q: int| 0 <= q < k1 implies is_digit_char(
                #[trigger] u.subrange(0, k1)[q],
            ) by {
                assert(u.subrange(0, k1)[q] == u[q]);
            }
        }
        assert(all_digits(u.subrange(k1 + 1, u.len() as int))) by {
            assert forall|q: int| 0 <= q < u.len() - k1 - 1 implies is_digit_char(
                #[trigger] u.subrange(k1 + 1, u.len() as int)[q],
            ) by {
                assert(u.subrange(k1 + 1, u.len() as int)[q] == u[q + k1 + 1]);
            }
        }
        assert(dot_split_ok(u, k1));
    }
    // read the first one or two fraction digits
    let c0 = s.get_char(dot_at + 1);
    proof {
        assert(u[dot_at + 1 - start] == s@[dot_at + 1]);
        assert(is_digit_char(u[dot_at + 1 - start]));
    }
    let d0: u64 = match digit_value(c0) {
        Some(d) => d,
        None => {
            proof {
                assert(false);
            }
            return None;
        },
    };
    let d1: u64 = if dot_at + 2 < n {
        let c1 = s.get_char(dot_at + 2);
        proof {
            assert(u[dot_at + 2 - start] == s@[dot_at + 2]);
            assert(is_digit_char(u[dot_at + 2 - start]));
        }
        match digit_value(c1) {
            Some(d) => d,
            None => {
                proof {
                    assert(false);
                }
                return None;
            },
        }
    } else {
        0
    };
    let carry: u64 = if n - dot_at > 3 {
        let c2 = s.get_char(dot_at + 3);
        proof {
            assert(u[dot_at + 3 - start] == s@[dot_at + 3]);
            assert(is_digit_char(u[dot_at + 3 - start]));
        }
        match digit_value(c2) {
            Some(d) => {
                if d >= 5 {
                    1
                } else {
                    0
                }
            },
            None => {
                proof {
                    assert(false);
                }
                return None;
            },
        }
    } else {
        0
    };
    proof {
        lemma_pow10_mono(k1 as nat, 15);
        let f = u.subrange(k1 + 1, u.len() as int);
        assert(f[0] == u[k1 + 1]);
        if f.len() >= 2 {
            assert(f[1] == u[k1 + 2]);
        }
        if f.len() >= 3 {
            assert(f[2] == u[k1 + 3]);
        }
        assert(exists|q: int| dot_split_ok(u, q)) by {
            assert(dot_split_ok(u, k1));
        }
        let q0 = choose|q: int| dot_split_ok(u, q);
        lemma_dot_split_unique(u, q0, k1);
        assert(unsigned_centi(u) == Some(100 * digits_val(u.subrange(0, k1)) + centi_frac(f)));
    }
    Some(acc * 100 + (d0 as i64) * 10 + (d1 as i64) + (carry as i64))
}

/// The shortest digit string for a non-negative value.
pub open spec fn digits_str(n: int) -> Seq<char>
    decreases n,
{
    if n <= 9 {
        seq![digit_char(n)]
    } else {
        digits_str(n / 10).push(digit_char(n % 10))
    }
}

/// The decimal text of a value in hundredths: an optional minus sign, the
/// integer digits, a dot, and exactly two fraction digits.
pub open spec fn format_centi_spec(v: int) -> Seq<char> {
    if v < 0 {
        seq!['-'] + format_unsigned_centi_spec(-v)
    } else {
        format_unsigned_centi_spec(v)
    }
}

pub open spec fn format_unsigned_centi_spec(v: int) -> Seq<char>
    recommends
        v >= 0,
{
    digits_str(v / 100).push('.').push(digit_char((v % 100) / 10)).push(digit_char((v % 100) % 10))
}

fn push_digits(n: u64, out: &mut String)
    ensures
        final(out)@ == old(out)@ + digits_str(n as int),
    decreases n,
{
    if n <= 9 {
        let c = char_of_digit(n);
        out.push(c);
        proof {
            assert(old(out)@.push(c) =~= old(out)@ + seq![c]);
        }
    } else {
        push_digits(n / 10, out);
        let c = char_of_digit(n % 10);
        out.push(c);
        proof {
            assert((old(out)@ + digits_str(n as int / 10)).push(c) =~= old(out)@ + digits_str(
                n as int / 10,
            ).push(c));
        }
    }
}

/// Formats a value with exactly two digits after the decimal point, as the
/// monitor prints it and puts it into the alert message.
pub fn format_value(p: Ppm) -> (r: String)
    ensures
        r@ == format_centi_spec(p.centi as int),
{
    let neg = p.centi < 0;
    let mag: u64 = if p.centi < 0 {
        proof {
            assert(0 <= -(p.centi as i128) <= u64::MAX);
        }
        (-(p.centi as i128)) as u64
    } else {
        p.centi as u64
    };
    let mut out = String::new();
    if neg {
        out.push('-');
    }
    push_digits(mag / 100, &mut out);
    out.push('.');
    let f = mag % 100;
    let c1 = char_of_digit(f / 10);
    out.push(c1);
    let c2 = char_of_digit(f % 10);
    out.push(c2);
    proof {
        if neg {
            assert(out@ =~= seq!['-'] + format_unsigned_centi_spec(mag as int));
        } else {
            assert(out@ =~= format_unsigned_centi_spec(mag as int));
        }
    }
    out
}

/// Parses decimal text (an optional minus sign, digits, and at most one dot
/// with digits after it) into a value in hundredths, rounded to the nearest
/// hundredth with ties away from zero.
pub fn parse_decimal(s: &str) -> (r: Option<Ppm>)
    ensures
        match r {
            Some(p) => decimal_centi(s@) == Some(p.centi as int),
            None => decimal_centi(s@) is None,
        },
{
    let n = s.unicode_len();
    if n == 0 {
        proof {
            assert forall|q: int| !dot_split_ok(s@, q) by {}
        }
        return None;
    }
    let neg = s.get_char(0) == '-';
    let start: usize = if neg {
        1
    } else {
        0
    };
    proof {
        if !neg {
            assert(s@.subrange(0, s@.len() as int) =~= s@);
        }
    }
    match parse_unsigned_centi(s, start) {
        None => None,
        Some(v) => {
            if neg {
                Some(Ppm { centi: -v })
            } else {
                Some(Ppm { centi: v })
            }
        },
    }
}

} // verus!
