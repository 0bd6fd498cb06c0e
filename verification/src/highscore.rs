//! The text form in which the high score is kept between sessions: the
//! decimal digits of the score (`text::decimal_text`), read back as `str::parse::<usize>` reads
//! them after trimming surrounding white space, with anything unreadable
//! counting as no high score.

use vstd::prelude::*;

use crate::text::{chars_of, decimal_digits, digit_char};

verus! {

/// The characters Rust's `char::is_whitespace` accepts (Unicode White_Space).
pub open spec fn is_white_space(c: char) -> bool {
    let v = c as u32;
    ||| 0x9 <= v <= 0xd
    ||| v == 0x20
    ||| v == 0x85
    ||| v == 0xa0
    ||| v == 0x1680
    ||| 0x2000 <= v <= 0x200a
    ||| v == 0x2028
    ||| v == 0x2029
    ||| v == 0x202f
    ||| v == 0x205f
    ||| v == 0x3000
}

/// Spaces, tabs and line breaks count as white space; digits and `+` do not.
pub proof fn lemma_white_space_examples()
    ensures
        is_white_space(' '),
        is_white_space('\t'),
        is_white_space('\n'),
        is_white_space('\r'),
        !is_white_space('0'),
        !is_white_space('9'),
        !is_white_space('+'),
{
}

/// `s` without its leading white space.
pub open spec fn trim_start(s: Seq<char>) -> Seq<char>
    decreases s.len(),
{
    if s.len() > 0 && is_white_space(s[0]) {
        trim_start(s.drop_first())
    } else {
        s
    }
}

/// `s` without its trailing white space.
pub open spec fn trim_end(s: Seq<char>) -> Seq<char>
    decreases s.len(),
{
    if s.len() > 0 && is_white_space(s.last()) {
        trim_end(s.drop_last())
    } else {
        s
    }
}

/// `s` without white space at either end.
pub open spec fn trim(s: Seq<char>) -> Seq<char> {
    trim_end(trim_start(s))
}

/// An ASCII decimal digit.
pub open spec fn is_digit(c: char) -> bool {
    '0' <= c && c <= '9'
}

/// The value of an ASCII decimal digit.
pub open spec fn digit_value(c: char) -> nat {
    (c as u32 - '0' as u32) as nat
}

/// The number that a string of decimal digits spells, most significant
/// digit first.
pub open spec fn decimal_value(s: Seq<char>) -> nat
    decreases s.len(),
{
    if s.len() == 0 {
        0
    } else {
        decimal_value(s.drop_last()) * 10 + digit_value(s.last())
    }
}

/// The digits part of a trimmed number: an optional leading `+` is dropped.
pub open spec fn unsigned_digits(s: Seq<char>) -> Seq<char> {
    if s.len() > 0 && s[0] == '+' {
        s.drop_first()
    } else {
        s
    }
}

/// The high score that a stored text stands for: the `usize` its trimmed
/// digits spell, or 0 when they are empty, hold anything but digits, or
/// spell a number too large for a `usize`.
pub open spec fn stored_score(text: Seq<char>) -> usize {
    let d = unsigned_digits(trim(text));
    if d.len() > 0 && (forall|i: int| 0 <= i < d.len() ==> is_digit(#[trigger] d[i]))
        && decimal_value(d) <= usize::MAX {
        decimal_value(d) as usize
    } else {
        0
    }
}

/// Digits map back to their values, and digit characters are digits, not
/// white space and not a sign.
proof fn lemma_digit_char(d: nat)
    requires
        d < 10,
    ensures
        is_digit(digit_char(d)),
        digit_value(digit_char(d)) == d,
        !is_white_space(digit_char(d)),
        digit_char(d) != '+',
{
}

proof fn lemma_decimal_digits(n: nat)
    ensures
        decimal_digits(n).len() > 0,
        forall|i: int|
            0 <= i < decimal_digits(n).len() ==> is_digit(#[trigger] decimal_digits(n)[i]),
        decimal_value(decimal_digits(n)) == n,
    decreases n,
{
    if n < 10 {
        lemma_digit_char(n);
        assert(decimal_digits(n).drop_last() =~= Seq::<char>::empty());
        assert(decimal_value(Seq::<char>::empty()) == 0);
        assert(decimal_digits(n).last() == digit_char(n));
    } else {
        lemma_decimal_digits(n / 10);
        lemma_digit_char(n % 10);
        let s = decimal_digits(n);
        assert(s.drop_last() =~= decimal_digits(n / 10));
        assert forall|i: int| 0 <= i < s.len() implies is_digit(#[trigger] s[i]) by {
            if i < s.len() - 1 {
                assert(s[i] == decimal_digits(n / 10)[i]);
            }
        }
        assert(s.last() == digit_char(n % 10));
        assert(decimal_value(s) == (n / 10) * 10 + n % 10);
        assert((n / 10) * 10 + n % 10 == n) by (nonlinear_arith);
    }
}

/// A score written as its decimal digits reads back as the same score.
pub proof fn lemma_score_round_trip(score: usize)
    ensures
        stored_score(decimal_digits(score as nat)) == score,
{
    let s = decimal_digits(score as nat);
    lemma_decimal_digits(score as nat);
    lemma_digit_char(digit_value(s[0]));
    assert(!is_white_space(s[0]));
    assert(trim_start(s) == s);
    assert(!is_white_space(s.last()));
    assert(trim_end(s) == s);
    assert(s[0] != '+');
    assert(unsigned_digits(trim(s)) == s);
}

fn white_space(c: char) -> (r: bool)
    ensures
        r == is_white_space(c),
{
    let v = c as u32;
    (0x9 <= v && v <= 0xd) || v == 0x20 || v == 0x85 || v == 0xa0 || v == 0x1680 || (0x2000 <= v
        && v <= 0x200a) || v == 0x2028 || v == 0x2029 || v == 0x202f || v == 0x205f || v == 0x3000
}

proof fn lemma_value_of_prefix(s: Seq<char>, k: int)
    requires
        0 <= k <= s.len(),
    ensures
        decimal_value(s.take(k)) <= decimal_value(s),
    decreases s.len() - k,
{
    if k < s.len() {
        lemma_value_of_prefix(s, k + 1);
        assert(s.take(k + 1).drop_last() =~= s.take(k));
    } else {
        assert(s.take(k) =~= s);
    }
}

/// Reads a stored high score: the `usize` that the text spells once white
/// space around it is trimmed and an optional `+` is dropped, or 0 when it
/// does not spell one.
pub fn parse_high_score(text: &str) -> (score: usize)
    ensures
        score == stored_score(text@),
{
    let chars = chars_of(text);
    let n = chars.len();
    let ghost s = chars@;

    let mut start: usize = 0;
    assert(s.subrange(0, n as int) =~= s);
    while start < n && white_space(chars[start])
        invariant
            s == chars@,
            n == s.len(),
            start <= n,
            trim_start(s) == trim_start(s.subrange(start as int, n as int)),
        decreases n - start,
    {
        assert(s.subrange(start as int, n as int).drop_first() =~= s.subrange(
            start + 1,
            n as int,
        ));
        start = start + 1;
    }
    assert(trim_start(s) == s.subrange(start as int, n as int));

    let mut end: usize = n;
    while end > start && white_space(chars[end - 1])
        invariant
            s == chars@,
            n == s.len(),
            start <= end <= n,
            trim_end(s.subrange(start as int, n as int)) == trim_end(
                s.subrange(start as int, end as int),
            ),
        decreases end - start,
    {
        assert(s.subrange(start as int, end as int).drop_last() =~= s.subrange(
            start as int,
            end - 1,
        ));
        end = end - 1;
    }
    let ghost trimmed = s.subrange(start as int, end as int);
    assert(trim(s) == trimmed);

    if end > start && chars[start] == '+' {
        assert(trimmed.drop_first() =~= s.subrange(start + 1, end as int));
        start = start + 1;
    }
    let ghost digits = s.subrange(start as int, end as int);
    assert(unsigned_digits(trim(s)) == digits);
    if start == end {
        return 0;
    }

    let mut value: usize = 0;
    let mut i: usize = start;
    while i < end
        invariant
            s == chars@,
            n == s.len(),
            start < end <= n,
            start <= i <= end,
            digits == s.subrange(start as int, end as int),
            digits == unsigned_digits(trim(text@)),
            s == text@,
            value == decimal_value(s.subrange(start as int, i as int)),
            forall|j: int| start <= j < i ==> is_digit(#[trigger] s[j]),
        decreases end - i,
    {
        let c = chars[i];
        let ghost prefix = s.subrange(start as int, i + 1);
        assert(prefix.drop_last() =~= s.subrange(start as int, i as int));
        assert(digits.take(i + 1 - start) =~= prefix);
        if !('0' <= c && c <= '9') {
            assert(!is_digit(digits[i - start]));
            return 0;
        }
        let d = (c as u32 - '0' as u32) as usize;
        match value.checked_mul(10) {
            Some(tens) => match tens.checked_add(d) {
                Some(next) => {
                    value = next;
                },
                None => {
                    proof {
                        lemma_value_of_prefix(digits, i + 1 - start);
                    }
                    return 0;
                },
            },
            None => {
                proof {
                    lemma_value_of_prefix(digits, i + 1 - start);
                }
                return 0;
            },
        }
        i = i + 1;
    }
    assert(s.subrange(start as int, i as int) == digits);
    value
}

} // verus!
