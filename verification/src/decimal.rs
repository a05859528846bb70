//! Decimal text: the digits of identifiers and timestamps.
//!
//! Two readers live here. `parse_i32` reads a signed whole number, as a
//! subject identifier is written. `whole_seconds` reads a decimal number
//! that may carry a fraction and an exponent, as a timestamp is written, and
//! cuts it down to whole seconds.

use vstd::prelude::*;
use crate::text::ascii_bytes;

verus! {

/// Whether `c` is one of the ten ASCII digits.
pub open spec fn is_digit(c: char) -> bool {
    '0' <= c <= '9'
}

/// The number a digit stands for.
pub open spec fn digit_value(c: char) -> int {
    c as int - '0' as int
}

/// Whether every character of `s` is a digit.
pub open spec fn all_digits(s: Seq<char>) -> bool {
    forall|i: int| 0 <= i < s.len() ==> is_digit(#[trigger] s[i])
}

/// The number that a run of digits writes in base ten; 0 for the empty run.
pub open spec fn digits_value(s: Seq<char>) -> int
    decreases s.len(),
{
    if s.len() == 0 {
        0
    } else {
        digits_value(s.drop_last()) * 10 + digit_value(s.last())
    }
}

/// Ten to the power `n`.
pub open spec fn pow10(n: nat) -> int
    decreases n,
{
    if n == 0 {
        1
    } else {
        10 * pow10((n - 1) as nat)
    }
}

/// The whole number that `s` writes: an optional `+` or `-`, then one or
/// more digits and nothing else. `None` for any other text.
pub open spec fn signed_integer(s: Seq<char>) -> Option<int> {
    let signed = s.len() > 0 && (s[0] == '-' || s[0] == '+');
    let body = if signed {
        s.subrange(1, s.len() as int)
    } else {
        s
    };
    if body.len() > 0 && all_digits(body) {
        if signed && s[0] == '-' {
            Some(-digits_value(body))
        } else {
            Some(digits_value(body))
        }
    } else {
        None
    }
}

/// The number that `s` writes as a signed whole number, where it fits in 32
/// bits; `None` where `s` writes none or the number does not fit.
pub open spec fn decimal_i32(s: Seq<char>) -> Option<i32> {
    match signed_integer(s) {
        Some(v) => if i32::MIN <= v <= i32::MAX {
            Some(v as i32)
        } else {
            None
        },
        None => None,
    }
}

/// The index of the first character at or after `from` that is no digit; the
/// length of `s` where digits run to its end.
pub open spec fn digits_end(s: Seq<char>, from: int) -> int
    decreases s.len() - from,
{
    if 0 <= from < s.len() && is_digit(s[from]) {
        digits_end(s, from + 1)
    } else {
        from
    }
}

/// A decimal number taken apart: its sign, its digits with the decimal point
/// and the exponent taken out, and the number of digits that stand before
/// the decimal point once the exponent has moved it. `point` may lie left of
/// the first digit (zero or negative) or right of the last.
pub struct Decimal {
    pub negative: bool,
    pub digits: Seq<char>,
    pub point: int,
}

/// The parts of the decimal number that `s` writes: an optional `-`, one or
/// more digits, optionally `.` and one or more digits, optionally `e` or `E`
/// and a signed whole number. `None` for any other text.
pub open spec fn parse_decimal(s: Seq<char>) -> Option<Decimal> {
    let start: int = if s.len() > 0 && s[0] == '-' {
        1
    } else {
        0
    };
    let int_end = digits_end(s, start);
    let has_fraction = int_end < s.len() && s[int_end] == '.';
    let fraction_start = if has_fraction {
        int_end + 1
    } else {
        int_end
    };
    let fraction_end = digits_end(s, fraction_start);
    let has_exponent = fraction_end < s.len() && (s[fraction_end] == 'e' || s[fraction_end] == 'E');
    let digits = s.subrange(start, int_end) + s.subrange(fraction_start, fraction_end);
    if int_end == start || (has_fraction && fraction_end == fraction_start) {
        None
    } else if has_exponent {
        match signed_integer(s.subrange(fraction_end + 1, s.len() as int)) {
            Some(exponent) => Some(
                Decimal { negative: start == 1, digits, point: int_end - start + exponent },
            ),
            None => None,
        }
    } else if fraction_end == s.len() {
        Some(Decimal { negative: start == 1, digits, point: int_end - start })
    } else {
        None
    }
}

/// The size of `d` with everything after the decimal point dropped.
pub open spec fn truncated_magnitude(d: Decimal) -> int {
    if d.point <= 0 {
        0
    } else if d.point >= d.digits.len() {
        digits_value(d.digits) * pow10((d.point - d.digits.len()) as nat)
    } else {
        digits_value(d.digits.take(d.point))
    }
}

/// The whole number nearest to `d` on the side of zero.
pub open spec fn truncated(d: Decimal) -> int {
    if d.negative {
        -truncated_magnitude(d)
    } else {
        truncated_magnitude(d)
    }
}

/// The decimal number that `s` writes, cut down toward zero to a whole
/// number, where that fits in 64 bits. `None` where `s` writes no decimal
/// number or the whole number does not fit.
pub open spec fn whole_seconds(s: Seq<char>) -> Option<i64> {
    match parse_decimal(s) {
        Some(d) => if i64::MIN <= truncated(d) <= i64::MAX {
            Some(truncated(d) as i64)
        } else {
            None
        },
        None => None,
    }
}

/// Whether `bytes` holds the characters of `s`, one byte for each.
pub open spec fn same_text(bytes: Seq<u8>, s: Seq<char>) -> bool {
    &&& vstd::utf8::is_ascii_chars(s)
    &&& bytes.len() == s.len()
    &&& forall|i: int| 0 <= i < s.len() ==> #[trigger] bytes[i] == s[i] as u8
}

/// Every character from `from` up to `digits_end` is a digit, and the one at
/// `digits_end` is none.
pub proof fn lemma_digits_end(s: Seq<char>, from: int)
    requires
        0 <= from <= s.len(),
    ensures
        from <= digits_end(s, from) <= s.len(),
        forall|i: int| from <= i < digits_end(s, from) ==> is_digit(#[trigger] s[i]),
        digits_end(s, from) < s.len() ==> !is_digit(s[digits_end(s, from)]),
    decreases s.len() - from,
{
    if from < s.len() && is_digit(s[from]) {
        lemma_digits_end(s, from + 1);
    }
}

/// A run of digits writes a number that is not negative.
pub proof fn lemma_digits_value_nonnegative(s: Seq<char>)
    requires
        all_digits(s),
    ensures
        digits_value(s) >= 0,
    decreases s.len(),
{
    if s.len() > 0 {
        lemma_digits_value_nonnegative(s.drop_last());
    }
}

/// One more digit to the right multiplies by ten and adds the digit.
pub proof fn lemma_digits_value_step(s: Seq<char>, k: int)
    requires
        0 <= k < s.len(),
    ensures
        digits_value(s.take(k + 1)) == digits_value(s.take(k)) * 10 + digit_value(s[k]),
{
    assert(s.take(k + 1).drop_last() =~= s.take(k));
}

/// A longer run of leading digits never writes a smaller number.
pub proof fn lemma_digits_value_grows(s: Seq<char>, i: int, j: int)
    requires
        all_digits(s),
        0 <= i <= j <= s.len(),
    ensures
        0 <= digits_value(s.take(i)) <= digits_value(s.take(j)),
    decreases j - i,
{
    lemma_digits_value_nonnegative(s.take(i));
    if i < j {
        lemma_digits_value_grows(s, i, j - 1);
        lemma_digits_value_step(s, j - 1);
    }
}

/// Powers of ten are positive, and the next one is ten times the last.
pub proof fn lemma_pow10(n: nat)
    ensures
        pow10(n) >= 1,
        pow10(n + 1) == 10 * pow10(n),
    decreases n,
{
    if n > 0 {
        lemma_pow10((n - 1) as nat);
    }
}

/// Nineteen or more zeros behind a positive number take it out of 64 bits.
pub proof fn lemma_pow10_large(n: nat)
    requires
        n >= 19,
    ensures
        pow10(n) >= 10_000_000_000_000_000_000,
    decreases n,
{
    if n == 19 {
        reveal_with_fuel(pow10, 20);
        assert(pow10(19) == 10_000_000_000_000_000_000);
    } else {
        lemma_pow10_large((n - 1) as nat);
    }
}

/// Text that writes a signed whole number is ASCII.
pub proof fn lemma_signed_integer_is_ascii(s: Seq<char>)
    requires
        signed_integer(s) is Some,
    ensures
        vstd::utf8::is_ascii_chars(s),
{
    let signed = s.len() > 0 && (s[0] == '-' || s[0] == '+');
    let body = if signed {
        s.subrange(1, s.len() as int)
    } else {
        s
    };
    assert forall|i: int| 0 <= i < s.len() implies '\0' <= #[trigger] s[i] <= '\u{7f}' by {
        if signed {
            if i > 0 {
                assert(is_digit(body[i - 1]));
            }
        } else {
            assert(is_digit(body[i]));
        }
    }
}

/// Text that writes a decimal number is ASCII.
pub proof fn lemma_decimal_is_ascii(s: Seq<char>)
    requires
        parse_decimal(s) is Some,
    ensures
        vstd::utf8::is_ascii_chars(s),
{
    let start: int = if s.len() > 0 && s[0] == '-' {
        1
    } else {
        0
    };
    let int_end = digits_end(s, start);
    lemma_digits_end(s, start);
    let has_fraction = int_end < s.len() && s[int_end] == '.';
    let fraction_start = if has_fraction {
        int_end + 1
    } else {
        int_end
    };
    lemma_digits_end(s, fraction_start);
    let fraction_end = digits_end(s, fraction_start);
    let has_exponent = fraction_end < s.len() && (s[fraction_end] == 'e' || s[fraction_end] == 'E');
    let exponent_text = s.subrange(fraction_end + 1, s.len() as int);
    if has_exponent {
        lemma_signed_integer_is_ascii(exponent_text);
    }
    assert forall|i: int| 0 <= i < s.len() implies '\0' <= #[trigger] s[i] <= '\u{7f}' by {
        if i < start {
        } else if i < int_end {
            assert(is_digit(s[i]));
        } else if i < fraction_start {
        } else if i < fraction_end {
            assert(is_digit(s[i]));
        } else if i == fraction_end {
        } else {
            assert(has_exponent);
            assert(exponent_text[i - fraction_end - 1] == s[i]);
        }
    }
}

/// Reads the digits of `bytes` from `from` on: the index where they end.
fn scan_digits(bytes: &[u8], from: usize, Ghost(s): Ghost<Seq<char>>) -> (end: usize)
    requires
        same_text(bytes@, s),
        from <= bytes.len(),
    ensures
        end == digits_end(s, from as int),
        from <= end <= bytes.len(),
{
    let mut i = from;
    while i < bytes.len() && bytes[i] >= 48 && bytes[i] <= 57
        invariant
            same_text(bytes@, s),
            from <= i <= bytes.len(),
            digits_end(s, i as int) == digits_end(s, from as int),
        decreases bytes.len() - i,
    {
        assert(is_digit(s[i as int]));
        i += 1;
    }
    proof {
        if i < bytes.len() {
            assert(!is_digit(s[i as int]));
        }
    }
    i
}

/// The largest size that `accumulate` follows a number to.
pub const ACCUMULATE_CAP: u128 = 0x10_0000_0000_0000_0000_0000_0000;

/// Goes on from `init`, the number that the digits `prefix` write, through
/// the digits `bytes[from..to]`: the number that all of them write, as far
/// as it stays at or below `limit`; `None` once it goes beyond.
fn accumulate(
    init: u128,
    bytes: &[u8],
    from: usize,
    to: usize,
    limit: u128,
    Ghost(s): Ghost<Seq<char>>,
    Ghost(prefix): Ghost<Seq<char>>,
) -> (r: Option<u128>)
    requires
        same_text(bytes@, s),
        from <= to <= bytes.len(),
        all_digits(prefix),
        all_digits(s.subrange(from as int, to as int)),
        init == digits_value(prefix),
        init <= limit,
        9 <= limit <= ACCUMULATE_CAP,
    ensures
        r matches Some(v) ==> v == digits_value(prefix + s.subrange(from as int, to as int)) && v
            <= limit,
        r is None ==> digits_value(prefix + s.subrange(from as int, to as int)) > limit,
{
    let ghost run = s.subrange(from as int, to as int);
    let ghost whole = prefix + run;
    let mut value: u128 = init;
    let mut i = from;
    proof {
        assert(prefix + run.take(0) =~= prefix);
        assert forall|k: int| 0 <= k < whole.len() implies is_digit(#[trigger] whole[k]) by {
            if k < prefix.len() {
                assert(is_digit(prefix[k]));
            } else {
                assert(is_digit(run[k - prefix.len()]));
            }
        }
    }
    while i < to
        invariant
            same_text(bytes@, s),
            from <= i <= to <= bytes.len(),
            run == s.subrange(from as int, to as int),
            whole == prefix + run,
            all_digits(run),
            all_digits(whole),
            9 <= limit <= ACCUMULATE_CAP,
            value == digits_value(prefix + run.take(i - from)),
            value <= limit,
        decreases to - i,
    {
        assert(is_digit(run[i - from]));
        assert(run[i - from] == s[i as int]);
        let digit: u128 = (bytes[i] - 48) as u128;
        proof {
            let k = prefix.len() + (i - from);
            assert(whole.take(k) =~= prefix + run.take(i - from));
            assert(whole.take(k + 1) =~= prefix + run.take(i - from + 1));
            assert(whole[k] == run[i - from]);
            lemma_digits_value_step(whole, k);
            lemma_digits_value_grows(whole, k + 1, whole.len() as int);
            assert(whole.take(whole.len() as int) =~= whole);
        }
        if value > (limit - digit) / 10 {
            return None;
        }
        value = value * 10 + digit;
        i += 1;
    }
    assert(run.take(run.len() as int) =~= run);
    Some(value)
}

/// Reads a signed whole number of 32 bits from `text`: an optional `+` or
/// `-`, then digits to the end. Any other text, and any number that does
/// not fit, gives `None`.
pub fn parse_i32(text: &str) -> (r: Option<i32>)
    ensures
        r == decimal_i32(text@),
{
    let bytes = match ascii_bytes(text) {
        Some(bytes) => bytes,
        None => {
            proof {
                if signed_integer(text@) is Some {
                    lemma_signed_integer_is_ascii(text@);
                }
            }
            return None;
        },
    };
    let ghost s = text@;
    let n = bytes.len();
    let signed = n > 0 && (bytes[0] == 45 || bytes[0] == 43);
    let start: usize = if signed {
        1
    } else {
        0
    };
    let end = scan_digits(bytes, start, Ghost(s));
    let ghost body = s.subrange(start as int, n as int);
    proof {
        if n > 0 {
            assert(bytes@[0] == s[0] as u8);
        }
        assert(signed == (s.len() > 0 && (s[0] == '-' || s[0] == '+')));
        if !signed {
            assert(body =~= s);
        }
        lemma_digits_end(s, start as int);
        if end < n {
            assert(body[end - start] == s[end as int]);
        } else {
            assert forall|i: int| 0 <= i < body.len() implies is_digit(#[trigger] body[i]) by {
                assert(body[i] == s[start + i]);
            }
        }
    }
    if end == start || end < n {
        return None;
    }
    let negative = signed && bytes[0] == 45;
    let limit: u128 = if negative {
        0x8000_0000
    } else {
        0x7fff_ffff
    };
    proof {
        assert(Seq::<char>::empty() + body =~= body);
    }
    match accumulate(0, bytes, start, n, limit, Ghost(s), Ghost(Seq::empty())) {
        Some(magnitude) => {
            if negative {
                if magnitude == 0x8000_0000 {
                    Some(i32::MIN)
                } else {
                    Some(-(magnitude as i32))
                }
            } else {
                Some(magnitude as i32)
            }
        },
        None => None,
    }
}

/// No zeros behind a number leave it as it is.
pub proof fn lemma_no_zeros(value: int)
    ensures
        value * pow10(0) == value,
{
    assert(pow10(0) == 1);
}

/// More zeros behind a number that is not negative never make it smaller.
pub proof fn lemma_pow10_at_least(value: int, fewer: nat, more: nat)
    requires
        value >= 0,
        fewer <= more,
    ensures
        value * pow10(fewer) <= value * pow10(more),
    decreases more - fewer,
{
    if fewer < more {
        lemma_pow10_at_least(value, fewer, (more - 1) as nat);
        lemma_pow10((more - 1) as nat);
        assert(value * pow10((more - 1) as nat) <= value * (10 * pow10((more - 1) as nat)))
            by (nonlinear_arith)
            requires
                value >= 0,
                pow10((more - 1) as nat) >= 1,
        ;
    }
}

/// `value` with `count` zeros written behind it, as far as that stays at or
/// below `limit`; `None` once it goes beyond. `zeros` holds the count, or
/// `None` for a count too large to hold, which is nineteen at least.
fn append_zeros(value: u128, zeros: Option<u128>, limit: u128, Ghost(count): Ghost<nat>) -> (r:
    Option<u128>)
    requires
        value <= limit,
        9 <= limit <= 0x8000_0000_0000_0000,
        match zeros {
            Some(z) => count == z,
            None => count >= 19,
        },
    ensures
        r matches Some(v) ==> v == value * pow10(count) && v <= limit,
        r is None ==> value * pow10(count) > limit,
{
    if value == 0 {
        assert(0 * pow10(count) == 0);
        return Some(0);
    }
    let wanted = match zeros {
        Some(z) => z,
        None => {
            proof {
                lemma_pow10_large(count);
                assert(value * pow10(count) >= pow10(count)) by (nonlinear_arith)
                    requires
                        value >= 1,
                        pow10(count) >= 1,
                ;
            }
            return None;
        },
    };
    let mut result = value;
    let mut done: u128 = 0;
    proof {
        lemma_no_zeros(value as int);
    }
    while done < wanted
        invariant
            done <= wanted == count,
            value >= 1,
            9 <= limit <= 0x8000_0000_0000_0000,
            result == value * pow10(done as nat),
            1 <= result <= limit,
        decreases wanted - done,
    {
        let ghost next = (done + 1) as nat;
        proof {
            lemma_pow10(done as nat);
            assert(value * pow10(next) == 10 * (value * pow10(done as nat))) by (nonlinear_arith)
                requires
                    pow10(next) == 10 * pow10(done as nat),
            ;
            lemma_pow10_at_least(value as int, next, count);
        }
        if result > limit / 10 {
            return None;
        }
        result = result * 10;
        done += 1;
    }
    Some(result)
}

/// Where the parts of a decimal number stand in its text: the digits before
/// the point in `start..int_end`, those after it in
/// `fraction_start..fraction_end`, and the exponent's sign and size, the
/// size `None` where it is beyond `ACCUMULATE_CAP`.
struct Layout {
    negative: bool,
    start: usize,
    int_end: usize,
    fraction_start: usize,
    fraction_end: usize,
    exponent_negative: bool,
    exponent: Option<u128>,
}

impl Layout {
    /// Whether this layout is that of the decimal number `d` in the text `s`.
    spec fn describes(self, s: Seq<char>, d: Decimal) -> bool {
        &&& self.start < self.int_end <= self.fraction_start <= self.fraction_end <= s.len()
        &&& d.negative == self.negative
        &&& d.digits == s.subrange(self.start as int, self.int_end as int) + s.subrange(
            self.fraction_start as int,
            self.fraction_end as int,
        )
        &&& all_digits(s.subrange(self.start as int, self.int_end as int))
        &&& all_digits(s.subrange(self.fraction_start as int, self.fraction_end as int))
        &&& match self.exponent {
            Some(e) => e <= ACCUMULATE_CAP && d.point == self.int_end - self.start + (
            if self.exponent_negative {
                -(e as int)
            } else {
                e as int
            }),
            None => if self.exponent_negative {
                d.point < self.int_end - self.start - ACCUMULATE_CAP
            } else {
                d.point > self.int_end - self.start + ACCUMULATE_CAP
            },
        }
    }
}

/// Reads the exponent that `bytes[from..]` writes: its sign and its size,
/// the size `None` where it is beyond `ACCUMULATE_CAP`. `None` where the
/// text writes no signed whole number.
fn read_exponent(bytes: &[u8], from: usize, Ghost(s): Ghost<Seq<char>>) -> (r: Option<
    (bool, Option<u128>),
>)
    requires
        same_text(bytes@, s),
        from <= bytes.len(),
    ensures
        r is Some <==> signed_integer(s.subrange(from as int, s.len() as int)) is Some,
        r matches Some((negative, size)) ==> {
            let value = signed_integer(s.subrange(from as int, s.len() as int)).unwrap();
            match size {
                Some(e) => e <= ACCUMULATE_CAP && value == if negative {
                    -(e as int)
                } else {
                    e as int
                },
                None => if negative {
                    value < -ACCUMULATE_CAP
                } else {
                    value > ACCUMULATE_CAP
                },
            }
        },
{
    let n = bytes.len();
    let ghost text = s.subrange(from as int, n as int);
    let signed = from < n && (bytes[from] == 45 || bytes[from] == 43);
    let digits_at: usize = if signed {
        from + 1
    } else {
        from
    };
    let end = scan_digits(bytes, digits_at, Ghost(s));
    let ghost run = s.subrange(digits_at as int, n as int);
    proof {
        if from < n {
            assert(bytes@[from as int] == s[from as int] as u8);
            assert(text[0] == s[from as int]);
        }
        if signed {
            assert(text.subrange(1, text.len() as int) =~= run);
        } else {
            assert(text =~= run);
        }
        lemma_digits_end(s, digits_at as int);
        if end < n {
            assert(run[end - digits_at] == s[end as int]);
        } else {
            assert forall|i: int| 0 <= i < run.len() implies is_digit(#[trigger] run[i]) by {
                assert(run[i] == s[digits_at + i]);
            }
        }
        assert(Seq::<char>::empty() + run =~= run);
    }
    if end == digits_at || end < n {
        return None;
    }
    let negative = signed && bytes[from] == 45;
    let size = accumulate(0, bytes, digits_at, n, ACCUMULATE_CAP, Ghost(s), Ghost(Seq::empty()));
    Some((negative, size))
}

/// Finds the parts of the decimal number that `bytes` writes; `None` where
/// it writes none.
fn read_layout(bytes: &[u8], Ghost(s): Ghost<Seq<char>>) -> (r: Option<Layout>)
    requires
        same_text(bytes@, s),
    ensures
        r is Some <==> parse_decimal(s) is Some,
        r matches Some(layout) ==> layout.describes(s, parse_decimal(s).unwrap()),
{
    let n = bytes.len();
    let negative = n > 0 && bytes[0] == 45;
    let start: usize = if negative {
        1
    } else {
        0
    };
    proof {
        if n > 0 {
            assert(bytes@[0] == s[0] as u8);
        }
        lemma_digits_end(s, start as int);
    }
    let int_end = scan_digits(bytes, start, Ghost(s));
    if int_end == start {
        return None;
    }
    let has_fraction = int_end < n && bytes[int_end] == 46;
    let fraction_start: usize = if has_fraction {
        int_end + 1
    } else {
        int_end
    };
    proof {
        if int_end < n {
            assert(bytes@[int_end as int] == s[int_end as int] as u8);
        }
        lemma_digits_end(s, fraction_start as int);
    }
    let fraction_end = scan_digits(bytes, fraction_start, Ghost(s));
    if has_fraction && fraction_end == fraction_start {
        return None;
    }
    let has_exponent = fraction_end < n && (bytes[fraction_end] == 101 || bytes[fraction_end]
        == 69);
    proof {
        if fraction_end < n {
            assert(bytes@[fraction_end as int] == s[fraction_end as int] as u8);
        }
        let whole_part = s.subrange(start as int, int_end as int);
        let fraction = s.subrange(fraction_start as int, fraction_end as int);
        assert forall|i: int| 0 <= i < whole_part.len() implies is_digit(
            #[trigger] whole_part[i],
        ) by {
            assert(whole_part[i] == s[start + i]);
        }
        assert forall|i: int| 0 <= i < fraction.len() implies is_digit(#[trigger] fraction[i]) by {
            assert(fraction[i] == s[fraction_start + i]);
        }
    }
    if has_exponent {
        match read_exponent(bytes, fraction_end + 1, Ghost(s)) {
            Some((exponent_negative, exponent)) => Some(
                Layout {
                    negative,
                    start,
                    int_end,
                    fraction_start,
                    fraction_end,
                    exponent_negative,
                    exponent,
                },
            ),
            None => None,
        }
    } else if fraction_end < n {
        None
    } else {
        Some(
            Layout {
                negative,
                start,
                int_end,
                fraction_start,
                fraction_end,
                exponent_negative: false,
                exponent: Some(0),
            },
        )
    }
}

/// Reads a decimal number from `text` and cuts it down toward zero to whole
/// seconds: `1600000000.75` gives 1600000000, `-1.5` gives -1, `1.6e9` gives
/// 1600000000. Text that writes no decimal number, and a number whose whole
/// part does not fit in 64 bits, gives `None`.
pub fn parse_whole_seconds(text: &str) -> (r: Option<i64>)
    ensures
        r == whole_seconds(text@),
{
    let bytes = match ascii_bytes(text) {
        Some(bytes) => bytes,
        None => {
            proof {
                if parse_decimal(text@) is Some {
                    lemma_decimal_is_ascii(text@);
                }
            }
            return None;
        },
    };
    let ghost s = text@;
    let layout = match read_layout(bytes, Ghost(s)) {
        Some(layout) => layout,
        None => {
            return None;
        },
    };
    let ghost d = parse_decimal(s).unwrap();
    let limit: u128 = if layout.negative {
        0x8000_0000_0000_0000
    } else {
        0x7fff_ffff_ffff_ffff
    };
    match truncate(bytes, &layout, limit, Ghost(s), Ghost(d)) {
        Some(magnitude) => {
            if layout.negative {
                if magnitude == 0x8000_0000_0000_0000 {
                    Some(i64::MIN)
                } else {
                    Some(-(magnitude as i64))
                }
            } else {
                Some(magnitude as i64)
            }
        },
        None => None,
    }
}

/// The size of the number laid out in `bytes` with everything after the
/// decimal point dropped, as far as it stays at or below `limit`; `None`
/// where it goes beyond.
fn truncate(
    bytes: &[u8],
    layout: &Layout,
    limit: u128,
    Ghost(s): Ghost<Seq<char>>,
    Ghost(d): Ghost<Decimal>,
) -> (r: Option<u128>)
    requires
        same_text(bytes@, s),
        layout.describes(s, d),
        0x7fff_ffff_ffff_ffff <= limit <= 0x8000_0000_0000_0000,
    ensures
        r matches Some(v) ==> v == truncated_magnitude(d) && v <= limit,
        r is None ==> truncated_magnitude(d) > limit,
{
    let int_len = layout.int_end - layout.start;
    let fraction_len = layout.fraction_end - layout.fraction_start;
    // How many digits of each part stand before the decimal point, and how
    // many zeros follow them.
    let take_int: usize;
    let take_fraction: usize;
    let zeros: Option<u128>;
    if layout.exponent_negative {
        match layout.exponent {
            Some(e) => {
                if e >= int_len as u128 {
                    return Some(0);
                }
                take_int = int_len - e as usize;
            },
            None => {
                return Some(0);
            },
        }
        take_fraction = 0;
        zeros = Some(0);
    } else {
        take_int = int_len;
        match layout.exponent {
            Some(e) => {
                if e <= fraction_len as u128 {
                    take_fraction = e as usize;
                    zeros = Some(0);
                } else {
                    take_fraction = fraction_len;
                    zeros = Some(e - fraction_len as u128);
                }
            },
            None => {
                take_fraction = fraction_len;
                zeros = None;
            },
        }
    }
    let ghost whole_part = s.subrange(layout.start as int, layout.int_end as int);
    let ghost fraction = s.subrange(layout.fraction_start as int, layout.fraction_end as int);
    let ghost taken_int = s.subrange(layout.start as int, layout.start + take_int);
    let ghost taken_fraction = s.subrange(
        layout.fraction_start as int,
        layout.fraction_start + take_fraction,
    );
    let ghost taken = taken_int + taken_fraction;
    let ghost count: nat = if d.point > d.digits.len() {
        (d.point - d.digits.len()) as nat
    } else {
        0
    };
    proof {
        assert(d.digits.len() == int_len + fraction_len);
        assert(match zeros {
            Some(z) => count == z,
            None => count >= 19,
        });
        assert(Seq::<char>::empty() + taken_int =~= taken_int);
        assert forall|i: int| 0 <= i < taken_int.len() implies is_digit(#[trigger] taken_int[i]) by {
            assert(taken_int[i] == whole_part[i]);
        }
        assert forall|i: int| 0 <= i < taken_fraction.len() implies is_digit(
            #[trigger] taken_fraction[i],
        ) by {
            assert(taken_fraction[i] == fraction[i]);
        }
        assert forall|i: int| 0 <= i < d.digits.len() implies is_digit(#[trigger] d.digits[i]) by {
            if i < whole_part.len() {
                assert(is_digit(whole_part[i]));
            } else {
                assert(is_digit(fraction[i - whole_part.len()]));
            }
        }
        assert(taken =~= d.digits.take(take_int + take_fraction));
        assert(taken.take(take_int as int) =~= taken_int);
        assert(taken.take(taken.len() as int) =~= taken);
        assert(d.digits.take(d.digits.len() as int) =~= d.digits);
        lemma_digits_value_grows(taken, take_int as int, taken.len() as int);
        lemma_digits_value_grows(d.digits, take_int + take_fraction, d.digits.len() as int);
        assert(d.point >= 1);
        if d.point >= d.digits.len() {
            assert(take_int + take_fraction == d.digits.len());
            assert(taken == d.digits);
            if count == 0 {
                lemma_no_zeros(digits_value(taken));
            }
        } else {
            assert(take_int + take_fraction == d.point);
            lemma_no_zeros(digits_value(taken));
        }
        assert(truncated_magnitude(d) == digits_value(taken) * pow10(count));
        lemma_pow10_at_least(digits_value(taken), 0, count);
    }
    let magnitude = match accumulate(
        0,
        bytes,
        layout.start,
        layout.start + take_int,
        limit,
        Ghost(s),
        Ghost(Seq::empty()),
    ) {
        Some(v) => v,
        None => {
            return None;
        },
    };
    let magnitude = match accumulate(
        magnitude,
        bytes,
        layout.fraction_start,
        layout.fraction_start + take_fraction,
        limit,
        Ghost(s),
        Ghost(taken_int),
    ) {
        Some(v) => v,
        None => {
            return None;
        },
    };
    append_zeros(magnitude, zeros, limit, Ghost(count))
}

} // verus!
