//! Character strings the game writes: the characters of a text and the
//! decimal digits of a number.

use vstd::prelude::*;

verus! {

/// The ASCII decimal digit for `d` (below 10).
pub open spec fn digit_char(d: nat) -> char {
    (d + '0' as u32) as char
}

/// The decimal digits of `n`, without leading zeros.
pub open spec fn decimal_digits(n: nat) -> Seq<char>
    decreases n,
{
    if n < 10 {
        seq![digit_char(n)]
    } else {
        decimal_digits(n / 10).push(digit_char(n % 10))
    }
}

/// The characters of `text`, in order.
pub fn chars_of(text: &str) -> (chars: Vec<char>)
    ensures
        chars@ == text@,
{
    let mut chars: Vec<char> = Vec::new();
    for c in it: text.chars()
        invariant
            chars@ == it.seq().take(it.index()),
    {
        chars.push(c);
    }
    chars
}

fn digit_to_char(d: usize) -> (c: char)
    requires
        d < 10,
    ensures
        c == digit_char(d as nat),
{
    ((d as u8) + 48u8) as char
}

/// The decimal digits of `n`, as written by `to_string`.
pub fn decimal_text(n: usize) -> (text: Vec<char>)
    ensures
        text@ == decimal_digits(n as nat),
{
    let mut text: Vec<char> = Vec::new();
    text.push(digit_to_char(n % 10));
    let mut rest = n / 10;
    while rest > 0
        invariant
            decimal_digits(n as nat) == (if rest == 0 {
                Seq::<char>::empty()
            } else {
                decimal_digits(rest as nat)
            }) + text@,
        decreases rest,
    {
        let ghost before = text@;
        text.insert(0, digit_to_char(rest % 10));
        assert(decimal_digits(rest as nat) == (if rest / 10 == 0 {
            Seq::<char>::empty()
        } else {
            decimal_digits((rest / 10) as nat)
        }) + seq![digit_char((rest % 10) as nat)]);
        assert(text@ =~= seq![digit_char((rest % 10) as nat)] + before);
        rest = rest / 10;
    }
    assert(text@ =~= Seq::<char>::empty() + text@);
    text
}

} // verus!
