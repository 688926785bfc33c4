//! Fixed-point money: amounts and balances are exact integer counts of
//! cents (scale-2 decimals). No floating point is ever used on money;
//! debits and credits are exact integer arithmetic, so no rounding can
//! occur.

use vstd::prelude::*;

verus! {

/// The digit character for a value in 0..10.
pub open spec fn digit_char(d: int) -> char
    recommends
        0 <= d < 10,
{
    (('0' as u32) + d) as char
}

/// Whether `c` is a decimal digit.
pub open spec fn is_digit(c: char) -> bool {
    '0' as u32 <= c as u32 <= '9' as u32
}

/// The numeric value of a digit character.
pub open spec fn digit_val(c: char) -> int
    recommends
        is_digit(c),
{
    c as u32 - '0' as u32
}

/// The value of the digit run `s[i..j]`, most significant digit first.
pub open spec fn digits_val(s: Seq<char>, i: int, j: int) -> int
    recommends
        0 <= i <= j <= s.len(),
    decreases j - i,
{
    if j <= i {
        0
    } else {
        digits_val(s, i, j - 1) * 10 + digit_val(s[j - 1])
    }
}

/// Whether every character of `s[i..j]` is a decimal digit.
pub open spec fn all_digits(s: Seq<char>, i: int, j: int) -> bool {
    forall|k: int| i <= k < j ==> is_digit(#[trigger] s[k])
}

/// Decimal rendering of a nonnegative integer, most significant digit first.
pub open spec fn spec_u64_str(n: int) -> Seq<char>
    recommends
        n >= 0,
    decreases n,
{
    if n < 10 {
        seq![digit_char(n)]
    } else {
        spec_u64_str(n / 10) + seq![digit_char(n % 10)]
    }
}

/// Rendering of a nonnegative cents count as a scale-2 decimal,
/// e.g. `80000` to `"800.00"`.
pub open spec fn spec_format_cents(c: int) -> Seq<char>
    recommends
        c >= 0,
{
    spec_u64_str(c / 100) + seq!['.', digit_char((c / 10) % 10), digit_char(c % 10)]
}

/// One decimal digit as a one-character string slice.
fn digit_str(d: u64) -> (r: &'static str)
    requires
        d < 10,
    ensures
        r@ =~= seq![digit_char(d as int)],
{
    let digits = "0123456789";
    proof {
        reveal_strlit("0123456789");
    }
    digits.substring_ascii(d as usize, d as usize + 1)
}

/// Decimal rendering of a `u64`, e.g. `1050` to `"1050"`.
pub fn u64_str(n: u64) -> (r: String)
    ensures
        r@ == spec_u64_str(n as int),
    decreases n,
{
    if n < 10 {
        let s = digit_str(n);
        s.to_owned()
    } else {
        let high = u64_str(n / 10);
        let low = digit_str(n % 10);
        high.concat(low)
    }
}

/// Renders a nonnegative cents count as a scale-2 decimal string:
/// `80000` becomes `"800.00"`, `7000` becomes `"70.00"`, `5` becomes `"0.05"`.
pub fn format_cents(c: i64) -> (r: String)
    requires
        c >= 0,
    ensures
        r@ == spec_format_cents(c as int),
{
    let whole = u64_str((c / 100) as u64);
    let tens = digit_str(((c / 10) % 10) as u64);
    let ones = digit_str((c % 10) as u64);
    let dot = ".";
    proof {
        reveal_strlit(".");
    }
    let r = whole.concat(dot).concat(tens).concat(ones);
    proof {
        assert(r@ =~= spec_format_cents(c as int));
    }
    r
}

/// The first index at or after `i` that does not hold a decimal digit
/// (`s.len()` when the digits run to the end).
pub open spec fn digit_run_end(s: Seq<char>, i: int) -> int
    recommends
        0 <= i <= s.len(),
    decreases s.len() - i,
{
    if i >= s.len() {
        s.len() as int
    } else if is_digit(s[i]) {
        digit_run_end(s, i + 1)
    } else {
        i
    }
}

/// The cents value of the scale-2 decimal number starting at `i` and
/// running to the end of `s`: at least one integer digit (at most
/// twelve, so the value fits comfortably in an `i64` cents count), and
/// optionally a point followed by one or two fraction digits.
/// `None` when `s[i..]` is not of that shape.
pub open spec fn spec_parse_cents_at(s: Seq<char>, i: int) -> Option<int>
    recommends
        0 <= i <= s.len(),
{
    let d = digit_run_end(s, i);
    if d == i || d - i > 12 {
        None
    } else if d == s.len() {
        Some(digits_val(s, i, d) * 100)
    } else if s[d] == '.' {
        let e = digit_run_end(s, d + 1);
        if e == s.len() && d + 1 < e <= d + 3 {
            Some(
                digits_val(s, i, d) * 100 + if e == d + 2 {
                    digit_val(s[d + 1]) * 10
                } else {
                    digit_val(s[d + 1]) * 10 + digit_val(s[d + 2])
                },
            )
        } else {
            None
        }
    } else {
        None
    }
}

/// The cents value of a whole-string scale-2 decimal such as `"200.00"`,
/// `"30"`, `"-5"` or `"0.5"`, with an optional leading minus sign.
/// `None` when `s` is not of that shape.
pub open spec fn spec_parse_cents(s: Seq<char>) -> Option<int> {
    if s.len() > 0 && s[0] == '-' {
        match spec_parse_cents_at(s, 1) {
            Some(v) => Some(-v),
            None => None,
        }
    } else {
        spec_parse_cents_at(s, 0)
    }
}

/// The value of a whole-string unsigned decimal of one to twelve
/// digits, `None` for anything else.
pub open spec fn spec_parse_u64(s: Seq<char>) -> Option<int> {
    let d = digit_run_end(s, 0);
    if d == s.len() && 0 < d <= 12 {
        Some(digits_val(s, 0, d))
    } else {
        None
    }
}

/// Parses a whole-string unsigned decimal of one to twelve digits.
pub fn parse_u64(s: &str) -> (r: Option<u64>)
    ensures
        r matches Some(v) ==> spec_parse_u64(s@) == Some(v as int),
        r is None ==> spec_parse_u64(s@) is None,
{
    let n = s.unicode_len();
    let d = find_digit_run_end(s, 0);
    if d == n && 0 < d && d <= 12 {
        Some(digits_value(s, 0, d))
    } else {
        None
    }
}

/// Ten to the `n`.
pub open spec fn pow10(n: nat) -> int
    decreases n,
{
    if n == 0 {
        1
    } else {
        10 * pow10((n - 1) as nat)
    }
}

/// A run of `n` digits has a value below ten to the `n`.
proof fn lemma_digits_val_bound(s: Seq<char>, i: int, j: int)
    requires
        0 <= i <= j <= s.len(),
        all_digits(s, i, j),
    ensures
        0 <= digits_val(s, i, j) < pow10((j - i) as nat),
    decreases j - i,
{
    if j > i {
        lemma_digits_val_bound(s, i, j - 1);
    }
}

proof fn lemma_pow10_12()
    ensures
        pow10(12) == 1_000_000_000_000,
{
    reveal_with_fuel(pow10, 13);
}

proof fn lemma_pow10_le(m: nat, n: nat)
    requires
        m <= n,
    ensures
        1 <= pow10(m) <= pow10(n),
    decreases n,
{
    if n > 0 {
        if m < n {
            lemma_pow10_le(m, (n - 1) as nat);
        } else {
            lemma_pow10_le((m - 1) as nat, (n - 1) as nat);
        }
    }
}

/// The first non-digit position at or after `i`, found by scanning.
pub(crate) fn find_digit_run_end(s: &str, i: usize) -> (r: usize)
    requires
        i <= s@.len(),
    ensures
        r == digit_run_end(s@, i as int),
        i <= r <= s@.len(),
        all_digits(s@, i as int, r as int),
        r < s@.len() ==> !is_digit(s@[r as int]),
    decreases s@.len() - i,
{
    let n = s.unicode_len();
    if i >= n {
        i
    } else {
        let c = s.get_char(i);
        if c as u32 >= '0' as u32 && c as u32 <= '9' as u32 {
            find_digit_run_end(s, i + 1)
        } else {
            i
        }
    }
}

/// The value of the digit run `s[i..j]`, at most twelve digits long.
pub(crate) fn digits_value(s: &str, i: usize, j: usize) -> (r: u64)
    requires
        i <= j <= s@.len(),
        j - i <= 12,
        all_digits(s@, i as int, j as int),
    ensures
        r == digits_val(s@, i as int, j as int),
        r <= 999_999_999_999,
    decreases j,
{
    if j <= i {
        0
    } else {
        let hi = digits_value(s, i, j - 1);
        let c = s.get_char(j - 1);
        proof {
            lemma_digits_val_bound(s@, i as int, j as int);
            lemma_pow10_le((j - i) as nat, 12);
            lemma_pow10_12();
        }
        hi * 10 + (c as u32 - '0' as u32) as u64
    }
}

/// Parses a whole-string scale-2 decimal into cents: `"200.00"` gives
/// `20000`, `"30"` gives `3000`, `"-5"` gives `-500`. Rejects anything
/// else, including numbers with more than two fraction digits or more
/// than twelve integer digits.
pub fn parse_cents(s: &str) -> (r: Option<i64>)
    ensures
        r matches Some(v) ==> spec_parse_cents(s@) == Some(v as int),
        r is None ==> spec_parse_cents(s@) is None,
{
    let n = s.unicode_len();
    if n > 0 && s.get_char(0) == '-' {
        match parse_cents_at(s, 1) {
            Some(v) => Some(-v),
            None => None,
        }
    } else {
        parse_cents_at(s, 0)
    }
}

/// Parses the scale-2 decimal running from `i` to the end of `s`.
fn parse_cents_at(s: &str, i: usize) -> (r: Option<i64>)
    requires
        i <= s@.len(),
    ensures
        r matches Some(v) ==> spec_parse_cents_at(s@, i as int) == Some(v as int) && 0 <= v,
        r is None ==> spec_parse_cents_at(s@, i as int) is None,
{
    let n = s.unicode_len();
    let d = find_digit_run_end(s, i);
    if d == i || d - i > 12 {
        None
    } else if d == n {
        let v = digits_value(s, i, d);
        Some((v as i64) * 100)
    } else if s.get_char(d) == '.' {
        let e = find_digit_run_end(s, d + 1);
        if e == n && d + 1 < e && e - d <= 3 {
            let whole = digits_value(s, i, d);
            let frac: u64 = if e == d + 2 {
                let c = s.get_char(d + 1);
                (c as u32 - '0' as u32) as u64 * 10
            } else {
                let c1 = s.get_char(d + 1);
                let c2 = s.get_char(d + 2);
                (c1 as u32 - '0' as u32) as u64 * 10 + (c2 as u32 - '0' as u32) as u64
            };
            Some((whole as i64) * 100 + (frac as i64))
        } else {
            None
        }
    } else {
        None
    }
}

} // verus!
