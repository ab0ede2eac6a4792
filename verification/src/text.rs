//! Plain values as text: decimal numbers, and how values are rendered for
//! debugging.

use vstd::prelude::*;
use vstd::string::*;

verus! {

/// The character of a decimal digit.
pub open spec fn digit_char(d: nat) -> char {
    (('0' as u32) + d) as char
}

/// `n` in decimal, without leading zeros.
pub open spec fn decimal(n: nat) -> Seq<char>
    decreases n,
{
    if n < 10 {
        seq![digit_char(n)]
    } else {
        decimal(n / 10).push(digit_char(n % 10))
    }
}

/// Whether `c` is one of `0` to `9`.
pub open spec fn is_digit(c: char) -> bool {
    '0' <= c <= '9'
}

/// The number that a decimal digit stands for.
pub open spec fn digit_value(c: char) -> nat {
    ((c as u32) - ('0' as u32)) as nat
}

/// The number that a run of decimal digits stands for.
pub open spec fn digits_value(s: Seq<char>) -> nat
    decreases s.len(),
{
    if s.len() == 0 {
        0
    } else {
        digits_value(s.drop_last()) * 10 + digit_value(s.last())
    }
}

/// `s` without one leading plus sign, where there is one.
pub open spec fn without_plus(s: Seq<char>) -> Seq<char> {
    if s.len() > 0 && s[0] == '+' {
        s.skip(1)
    } else {
        s
    }
}

/// The unsigned number written in `s`: an optional plus sign and at least
/// one decimal digit, nothing else, and a value of at most `max`.
pub open spec fn parse_unsigned(s: Seq<char>, max: nat) -> Option<nat> {
    let digits = without_plus(s);
    if digits.len() > 0 && (forall|i: int| 0 <= i < digits.len() ==> is_digit(#[trigger] digits[i]))
        && digits_value(digits) <= max {
        Some(digits_value(digits))
    } else {
        None
    }
}

/// The text of one decimal digit.
fn digit_text(d: u8) -> (r: &'static str)
    requires
        d < 10,
    ensures
        r@ == seq![digit_char(d as nat)],
{
    proof {
        reveal_strlit("0");
        reveal_strlit("1");
        reveal_strlit("2");
        reveal_strlit("3");
        reveal_strlit("4");
        reveal_strlit("5");
        reveal_strlit("6");
        reveal_strlit("7");
        reveal_strlit("8");
        reveal_strlit("9");
    }
    match d {
        0 => "0",
        1 => "1",
        2 => "2",
        3 => "3",
        4 => "4",
        5 => "5",
        6 => "6",
        7 => "7",
        8 => "8",
        _ => "9",
    }
}

/// Render `n` in decimal.
pub fn decimal_text(n: u64) -> (r: String)
    ensures
        r@ == decimal(n as nat),
    decreases n,
{
    let last: &'static str = digit_text((n % 10) as u8);
    if n < 10 {
        last.to_string()
    } else {
        let mut text: String = decimal_text(n / 10);
        text.append(last);
        text
    }
}

/// How a text is rendered for debugging: in double quotes, with special
/// characters escaped.
pub uninterp spec fn quoted(s: Seq<char>) -> Seq<char>;

/// Calls the `Debug` rendering of `str`. The contract only claims that it is
/// determined by the text.
#[verifier::external_body]
pub(crate) fn quoted_text(s: &str) -> (r: String)
    ensures
        r@ == quoted(s@),
{
    format!("{:?}", s)
}

/// How a flag is rendered.
pub open spec fn flag(v: bool) -> Seq<char> {
    if v {
        "true"@
    } else {
        "false"@
    }
}

/// Render a flag.
pub(crate) fn flag_text(v: bool) -> (r: &'static str)
    ensures
        r@ == flag(v),
{
    if v {
        "true"
    } else {
        "false"
    }
}

/// How a value that may be absent is rendered for debugging, given how the
/// value is.
pub open spec fn optional(value: Option<Seq<char>>) -> Seq<char> {
    match value {
        Some(value) => "Some("@ + value + ")"@,
        None => "None"@,
    }
}

/// Render a value that may be absent.
pub(crate) fn optional_text(value: Option<String>) -> (r: String)
    ensures
        r@ == optional(
            match value {
                Some(value) => Some(value@),
                None => None,
            },
        ),
{
    match value {
        Some(value) => {
            let mut text: String = "Some(".to_string();
            text.append(value.as_str());
            text.append(")");
            text
        },
        None => "None".to_string(),
    }
}

/// How a text that may be absent is rendered for debugging.
pub open spec fn optional_quoted(s: Option<Seq<char>>) -> Seq<char> {
    match s {
        Some(s) => optional(Some(quoted(s))),
        None => optional(None),
    }
}

/// Render a text that may be absent.
pub(crate) fn optional_quoted_text(s: &Option<String>) -> (r: String)
    ensures
        r@ == optional_quoted(
            match s {
                Some(s) => Some(s@),
                None => None,
            },
        ),
{
    match s {
        Some(s) => optional_text(Some(quoted_text(s.as_str()))),
        None => optional_text(None),
    }
}

/// How a number that may be absent is rendered for debugging.
pub open spec fn optional_decimal(n: Option<nat>) -> Seq<char> {
    match n {
        Some(n) => optional(Some(decimal(n))),
        None => optional(None),
    }
}

/// The characters of `s`, one by one.
pub fn chars_of(s: &str) -> (r: Vec<char>)
    ensures
        r@ == s@,
{
    let mut out: Vec<char> = Vec::new();
    for c in it: s.chars()
        invariant
            out@ == s@.take(it.index()),
            it.seq() == s@,
    {
        out.push(c);
    }
    out
}

/// Cutting digits off the end never makes the number larger.
proof fn lemma_prefix_value(s: Seq<char>, n: int)
    requires
        0 <= n <= s.len(),
    ensures
        digits_value(s.take(n)) <= digits_value(s),
    decreases s.len() - n,
{
    if n == s.len() {
        assert(s.take(n) =~= s);
    } else {
        lemma_prefix_value(s, n + 1);
        assert(s.take(n + 1).drop_last() =~= s.take(n));
    }
}

/// Read the unsigned number written in `chars[start..end]`, as
/// `parse_unsigned` describes it.
pub fn parse_unsigned_text(chars: &Vec<char>, start: usize, end: usize, max: u64) -> (r: Option<u64>)
    requires
        start <= end <= chars@.len(),
    ensures
        r is Some <==> parse_unsigned(chars@.subrange(start as int, end as int), max as nat) is Some,
        r matches Some(n) ==> parse_unsigned(
            chars@.subrange(start as int, end as int),
            max as nat,
        ) == Some(n as nat),
{
    let ghost whole = chars@.subrange(start as int, end as int);
    let mut i: usize = start;
    if i < end && chars[i] == '+' {
        i += 1;
    }
    let ghost digits = without_plus(whole);
    let first: usize = i;
    assert(digits =~= chars@.subrange(first as int, end as int));
    if first == end {
        return None;
    }
    let mut value: u64 = 0;
    while i < end
        invariant
            start <= first <= i <= end <= chars@.len(),
            first < end,
            digits == chars@.subrange(first as int, end as int),
            digits == without_plus(chars@.subrange(start as int, end as int)),
            value == digits_value(digits.take(i - first)),
            value <= max,
            forall|j: int| 0 <= j < i - first ==> is_digit(#[trigger] digits[j]),
        decreases end - i,
    {
        let c: char = chars[i];
        assert(c == digits[i - first]);
        if c < '0' || c > '9' {
            assert(!is_digit(digits[i - first]));
            return None;
        }
        assert(digits.take(i - first + 1).drop_last() =~= digits.take(i - first));
        let next: u128 = value as u128 * 10 + (c as u32 - '0' as u32) as u128;
        assert(next == digits_value(digits.take(i - first + 1)));
        if next > max as u128 {
            proof {
                lemma_prefix_value(digits, i - first + 1);
            }
            return None;
        }
        value = next as u64;
        i += 1;
    }
    assert(digits.take(end - first) =~= digits);
    Some(value)
}

/// Decimal text stands for the number that it was rendered from.
pub proof fn decimal_reads_back(n: nat)
    ensures
        decimal(n).len() > 0,
        forall|i: int| 0 <= i < decimal(n).len() ==> is_digit(#[trigger] decimal(n)[i]),
        digits_value(decimal(n)) == n,
        forall|max: nat| n <= max ==> #[trigger] parse_unsigned(decimal(n), max) == Some(n),
    decreases n,
{
    if n < 10 {
        reveal_with_fuel(digits_value, 2);
        assert(digits_value(seq![digit_char(n)]) == digit_value(digit_char(n)));
    } else {
        decimal_reads_back(n / 10);
        assert(decimal(n).drop_last() =~= decimal(n / 10));
    }
    assert(without_plus(decimal(n)) == decimal(n)) by {
        assert(is_digit(decimal(n)[0]));
    }
}

/// Decimal digits are the characters `0` to `9` in order.
pub proof fn digits_are_in_order(d: nat, c: char)
    requires
        d < 10,
    ensures
        digit_char(d) as u32 == 0x30 + d,
        is_digit(c) <==> 0x30 <= c as u32 <= 0x39,
        is_digit(c) ==> c as u32 == 0x30 + digit_value(c),
{
}

/// A run of digits is worth ten times the run before its last digit, plus
/// that digit; no digits are worth nothing.
pub proof fn digits_weigh_tens(s: Seq<char>, c: char)
    requires
        0x30 <= c as u32 <= 0x39,
    ensures
        digits_value(Seq::empty()) == 0,
        digits_value(s.push(c)) == 10 * digits_value(s) + (c as u32 - 0x30),
{
    assert(s.push(c).drop_last() =~= s);
}

/// Decimal text never starts with a zero, but for zero itself.
pub proof fn decimal_has_no_leading_zeros(n: nat)
    ensures
        n == 0 ==> decimal(n) =~= seq!['0'],
        n > 0 ==> decimal(n)[0] != '0',
    decreases n,
{
    if n >= 10 {
        decimal_has_no_leading_zeros(n / 10);
        decimal_reads_back(n / 10);
        assert(decimal(n)[0] == decimal(n / 10)[0]);
    } else {
        assert(digit_char(n) as u32 == 0x30 + n);
    }
}

/// A run of digits is read as what it is worth, with or without a plus sign
/// before it, unless that exceeds the bound.
pub proof fn digits_are_read_up_to_the_bound(digits: Seq<char>, max: nat)
    requires
        digits.len() > 0,
        forall|i: int| 0 <= i < digits.len() ==> 0x30 <= (#[trigger] digits[i]) as u32 <= 0x39,
    ensures
        parse_unsigned(digits, max) == (if digits_value(digits) <= max {
            Some(digits_value(digits))
        } else {
            None
        }),
        parse_unsigned(seq!['+'] + digits, max) == parse_unsigned(digits, max),
{
    assert(digits[0] as u32 <= 0x39);
    assert((seq!['+'] + digits).skip(1) =~= digits);
    assert forall|i: int| 0 <= i < digits.len() implies is_digit(#[trigger] digits[i]) by {
        digits_are_in_order(0, digits[i]);
    }
}

/// A text with anything but digits after an optional plus sign, or with no
/// digits, is no number.
pub proof fn other_texts_are_no_numbers(s: Seq<char>, max: nat, i: int)
    requires
        0 <= i < s.len() ==> !(0x30 <= s[i] as u32 <= 0x39) && !(i == 0 && s[i] == '+'),
        0 <= i < s.len() || s.len() == 0 || (s.len() == 1 && s[0] == '+'),
    ensures
        parse_unsigned(s, max) is None,
{
    let rest = without_plus(s);
    if 0 <= i < s.len() {
        let j = if s[0] == '+' {
            i - 1
        } else {
            i
        };
        assert(rest[j] == s[i]);
        assert(!is_digit(rest[j]));
    }
}

/// What is read from a stretch of text is what that stretch is worth: a value
/// within the bound, made of digits alone after an optional plus sign.
pub proof fn read_numbers_are_made_of_digits(
    chars: &Vec<char>,
    start: usize,
    end: usize,
    max: u64,
    r: Option<u64>,
)
    requires
        start <= end <= chars@.len(),
        call_ensures(parse_unsigned_text, (chars, start, end, max), r),
        r is Some,
    ensures
        ({
            let s = chars@.subrange(start as int, end as int);
            let digits = if s[0] == '+' {
                s.skip(1)
            } else {
                s
            };
            &&& s.len() > 0
            &&& digits.len() > 0
            &&& forall|i: int|
                0 <= i < digits.len() ==> 0x30 <= (#[trigger] digits[i]) as u32 <= 0x39
            &&& r->0 == digits_value(digits)
            &&& r->0 <= max
        }),
{
    let s = chars@.subrange(start as int, end as int);
    let digits = without_plus(s);
    assert(parse_unsigned(s, max as nat) == Some(r->0 as nat));
    assert forall|i: int| 0 <= i < digits.len() implies 0x30 <= (#[trigger] digits[i]) as u32
        <= 0x39 by {
        assert(is_digit(digits[i]));
    }
}

/// Rendering a number and reading it gives the number back.
pub proof fn rendered_number_reads_back(
    n: u64,
    text: String,
    chars: &Vec<char>,
    len: usize,
    max: u64,
    r: Option<u64>,
)
    requires
        call_ensures(decimal_text, (n,), text),
        chars@ == text@,
        len == chars@.len(),
        call_ensures(parse_unsigned_text, (chars, 0usize, len, max), r),
    ensures
        n <= max ==> r == Some(n),
        n > max ==> r is None,
{
    decimal_reads_back(n as nat);
    assert(chars@.subrange(0, chars@.len() as int) =~= text@);
    assert(without_plus(text@) == text@) by {
        assert(is_digit(text@[0]));
    }
}

/// The characters of a text are the text.
pub proof fn characters_are_the_text(s: &str, r: Vec<char>)
    requires
        call_ensures(chars_of, (s,), r),
    ensures
        r@.len() == s@.len(),
        forall|i: int| 0 <= i < s@.len() ==> #[trigger] r@[i] == s@[i],
{
}

/// Flags and absent values render as their words, and a present value between
/// its brackets.
pub proof fn values_render_as_their_words(value: Seq<char>, n: nat)
    ensures
        flag(true) == "true"@,
        flag(false) == "false"@,
        optional(None) == "None"@,
        optional(Some(value)) == "Some("@ + value + ")"@,
        optional_quoted(None) == "None"@,
        optional_quoted(Some(value)) == "Some("@ + quoted(value) + ")"@,
        optional_decimal(None) == "None"@,
        optional_decimal(Some(n)) == "Some("@ + decimal(n) + ")"@,
{
}

} // verus!
