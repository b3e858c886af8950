use vstd::prelude::*;
use crate::text::{chars_of, push_char};

verus! {

/// Whether `c` is one of the ten decimal digits.
pub open spec fn is_digit(c: char) -> bool {
    '0' <= c && c <= '9'
}

/// The number that a digit stands for.
pub open spec fn digit_value(c: char) -> int {
    c as int - '0' as int
}

/// The digit that stands for `d`, for `d` from 0 to 9.
pub open spec fn digit_char(d: int) -> char {
    (d + '0' as int) as u8 as char
}

/// Whether every character of `s` is a digit.
pub open spec fn all_digits(s: Seq<char>) -> bool {
    forall|i: int| 0 <= i < s.len() ==> is_digit(#[trigger] s[i])
}

/// The number that a run of digits denotes in base ten.
pub open spec fn digits_value(s: Seq<char>) -> int
    decreases s.len(),
{
    if s.len() == 0 {
        0
    } else {
        digits_value(s.drop_last()) * 10 + digit_value(s.last())
    }
}

/// Whether `s` is a whole number in base ten: one or more digits, with an
/// optional minus sign in front.
pub open spec fn is_integer_text(s: Seq<char>) -> bool {
    if s.len() > 0 && s[0] == '-' {
        s.len() > 1 && all_digits(s.skip(1))
    } else {
        s.len() > 0 && all_digits(s)
    }
}

/// The whole number that `s` denotes.
pub open spec fn integer_value(s: Seq<char>) -> int {
    if s.len() > 0 && s[0] == '-' {
        -digits_value(s.skip(1))
    } else {
        digits_value(s)
    }
}

/// The base-ten digits of a natural number, without leading zeros.
pub open spec fn decimal_nat(n: nat) -> Seq<char>
    decreases n,
{
    if n < 10 {
        seq![digit_char(n as int)]
    } else {
        decimal_nat(n / 10).push(digit_char((n % 10) as int))
    }
}

/// The base-ten form of a whole number.
pub open spec fn decimal(n: int) -> Seq<char> {
    if n < 0 {
        seq!['-'] + decimal_nat((-n) as nat)
    } else {
        decimal_nat(n as nat)
    }
}

/// A digit's character and its number correspond.
pub proof fn lemma_digit_char(d: int)
    requires
        0 <= d <= 9,
    ensures
        is_digit(digit_char(d)),
        digit_value(digit_char(d)) == d,
        digit_char(d) != '-',
{
}

/// The digits of a natural number are digits and denote that number.
pub proof fn lemma_decimal_nat(n: nat)
    ensures
        decimal_nat(n).len() >= 1,
        all_digits(decimal_nat(n)),
        digits_value(decimal_nat(n)) == n,
    decreases n,
{
    if n < 10 {
        lemma_digit_char(n as int);
        let s = decimal_nat(n);
        assert(digits_value(s.drop_last()) == 0);
    } else {
        lemma_decimal_nat(n / 10);
        lemma_digit_char((n % 10) as int);
        let s = decimal_nat(n);
        assert(s.drop_last() =~= decimal_nat(n / 10));
    }
}

/// Printing a whole number and reading the text again gives the number back.
pub proof fn lemma_decimal_round_trip(n: int)
    ensures
        is_integer_text(decimal(n)),
        integer_value(decimal(n)) == n,
{
    if n < 0 {
        lemma_decimal_nat((-n) as nat);
        assert(decimal(n).skip(1) =~= decimal_nat((-n) as nat));
    } else {
        lemma_decimal_nat(n as nat);
    }
}

/// Tells whether `text` is a whole number in base ten.
pub fn is_integer(text: &str) -> (whole: bool)
    ensures
        whole == is_integer_text(text@),
{
    let chars = chars_of(text);
    let n: usize = chars.len();
    let start: usize = if n > 0 && chars[0] == '-' { 1 } else { 0 };
    if n <= start {
        return false;
    }
    let mut i: usize = start;
    while i < n
        invariant
            start <= i <= n,
            n == chars@.len(),
            chars@ == text@,
            start == (if n > 0 && chars@[0] == '-' { 1usize } else { 0usize }),
            forall|k: int| start <= k < i ==> is_digit(#[trigger] chars@[k]),
        decreases n - i,
    {
        let c = chars[i];
        if !('0' <= c && c <= '9') {
            proof {
                if start == 1 {
                    assert(!is_digit(chars@.skip(1)[i - 1]));
                }
            }
            return false;
        }
        i = i + 1;
    }
    proof {
        if start == 1 {
            assert forall|k: int| 0 <= k < chars@.skip(1).len() implies is_digit(
                #[trigger] chars@.skip(1)[k],
            ) by {
            }
        }
    }
    true
}

/// Prints a natural number in base ten.
pub fn format_u64(n: u64) -> (text: String)
    ensures
        text@ == decimal_nat(n as nat),
{
    let mut low: Vec<char> = Vec::new();
    let mut rest: u64 = n;
    let ghost mut tail: Seq<char> = Seq::empty();
    while rest >= 10
        invariant
            decimal_nat(n as nat) == decimal_nat(rest as nat) + tail,
            low@.len() == tail.len(),
            forall|k: int| 0 <= k < tail.len() ==> #[trigger] low@[k] == tail[tail.len() - 1 - k],
        decreases rest,
    {
        let d: u8 = (rest % 10) as u8;
        let c: char = (d + 48u8) as char;
        proof {
            let ghost grown = seq![c] + tail;
            assert(decimal_nat((rest / 10) as nat).push(c) + tail =~= decimal_nat(
                (rest / 10) as nat,
            ) + grown);
            tail = grown;
        }
        low.push(c);
        rest = rest / 10;
    }
    let first: char = ((rest as u8) + 48u8) as char;
    let mut text = String::new();
    push_char(&mut text, first);
    let mut i: usize = low.len();
    while i > 0
        invariant
            i <= low@.len(),
            low@.len() == tail.len(),
            forall|k: int| 0 <= k < tail.len() ==> #[trigger] low@[k] == tail[tail.len() - 1 - k],
            text@ == decimal_nat(rest as nat) + tail.take(tail.len() - i),
        decreases i,
    {
        i = i - 1;
        proof {
            let at = tail.len() - 1 - i;
            assert((decimal_nat(rest as nat) + tail.take(at)).push(tail[at]) =~= decimal_nat(
                rest as nat,
            ) + tail.take(at + 1));
        }
        push_char(&mut text, low[i]);
    }
    text
}

/// Prints a whole number in base ten.
pub fn format_i64(n: i64) -> (text: String)
    ensures
        text@ == decimal(n as int),
{
    if n < 0 {
        let magnitude: u64 = ((-(n + 1)) as u64) + 1;
        let digits = format_u64(magnitude);
        let mut text = String::new();
        push_char(&mut text, '-');
        text.append(digits.as_str());
        text
    } else {
        format_u64(n as u64)
    }
}

/// A run of digits denotes at least what any of its prefixes denotes.
pub proof fn lemma_digits_prefix(s: Seq<char>, k: int)
    requires
        all_digits(s),
        0 <= k <= s.len(),
    ensures
        0 <= digits_value(s.take(k)) <= digits_value(s),
    decreases s.len() - k,
{
    if k == s.len() {
        assert(s.take(k) =~= s);
        lemma_digits_nonnegative(s);
    } else {
        let front = s.drop_last();
        assert(all_digits(front)) by {
            assert forall|i: int| 0 <= i < front.len() implies is_digit(#[trigger] front[i]) by {
            }
        }
        assert(front.take(k) =~= s.take(k));
        lemma_digits_prefix(front, k);
    }
}

/// A run of digits denotes a natural number.
pub proof fn lemma_digits_nonnegative(s: Seq<char>)
    requires
        all_digits(s),
    ensures
        0 <= digits_value(s),
    decreases s.len(),
{
    if s.len() > 0 {
        let front = s.drop_last();
        assert(all_digits(front)) by {
            assert forall|i: int| 0 <= i < front.len() implies is_digit(#[trigger] front[i]) by {
            }
        }
        lemma_digits_nonnegative(front);
    }
}

/// What reading `s` as a whole number of 64 bits gives: the number, where `s`
/// is a whole number in base ten that fits, and nothing otherwise.
pub open spec fn integer_of_text(s: Seq<char>) -> Option<i64> {
    if is_integer_text(s) && i64::MIN <= integer_value(s) <= i64::MAX {
        Some(integer_value(s) as i64)
    } else {
        None
    }
}

/// Reads a whole number in base ten that fits in 64 bits.
pub fn parse_i64(text: &str) -> (value: Option<i64>)
    ensures
        value == integer_of_text(text@),
{
    if !is_integer(text) {
        return None;
    }
    let chars = chars_of(text);
    let n: usize = chars.len();
    let negative: bool = chars[0] == '-';
    let start: usize = if negative { 1 } else { 0 };
    let ghost run = chars@.skip(start as int);
    let mut acc: u64 = 0;
    let mut i: usize = start;
    proof {
        if !negative {
            assert(run =~= chars@);
        }
    }
    while i < n
        invariant
            start <= i <= n,
            n == chars@.len(),
            run == chars@.skip(start as int),
            chars@ == text@,
            n > 0,
            negative == (chars@[0] == '-'),
            start == (if negative { 1usize } else { 0usize }),
            is_integer_text(text@),
            integer_value(text@) == (if negative { -digits_value(run) } else { digits_value(run) }),
            all_digits(run),
            acc == digits_value(run.take(i - start)),
            acc <= 9223372036854775808u64,
        decreases n - i,
    {
        let c = chars[i];
        proof {
            assert(run.take(i - start + 1).drop_last() =~= run.take(i - start));
            assert(run.take(i - start + 1).last() == c);
        }
        let d: u64 = (c as u64) - 48;
        if acc > 922337203685477580u64 || (acc == 922337203685477580u64 && d > 8) {
            proof {
                lemma_digits_prefix(run, i - start + 1);
            }
            return None;
        }
        acc = acc * 10 + d;
        i = i + 1;
    }
    proof {
        assert(run.take(n - start) =~= run);
    }
    if negative {
        if acc == 9223372036854775808u64 {
            Some(i64::MIN)
        } else {
            Some(-(acc as i64))
        }
    } else if acc == 9223372036854775808u64 {
        None
    } else {
        Some(acc as i64)
    }
}

} // verus!
