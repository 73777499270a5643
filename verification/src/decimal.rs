//! Unsigned numbers in decimal notation, written and read back.

use vstd::prelude::*;
use crate::text::chars_of;

verus! {

/// The ten digits, in order of their values.
pub open spec fn digits() -> Seq<char> {
    seq!['0', '1', '2', '3', '4', '5', '6', '7', '8', '9']
}

/// `c` is one of the ten digits.
pub open spec fn is_digit(c: char) -> bool {
    '0' <= c <= '9'
}

/// The value of the digit `c`; 0 where `c` is no digit.
pub open spec fn digit_value(c: char) -> nat {
    if is_digit(c) {
        (c as nat - '0' as nat) as nat
    } else {
        0
    }
}

/// `n` in decimal notation, without leading zeros; zero is written `0`.
pub open spec fn decimal(n: nat) -> Seq<char>
    decreases n,
{
    if n < 10 {
        seq![digits()[n as int]]
    } else {
        decimal(n / 10).push(digits()[(n % 10) as int])
    }
}

/// Every character of `s` is a digit.
pub open spec fn all_digits(s: Seq<char>) -> bool {
    forall|i: int| 0 <= i < s.len() ==> is_digit(#[trigger] s[i])
}

/// The number that the digits `s` write, the first digit weighing most.
pub open spec fn digits_value(s: Seq<char>) -> nat
    decreases s.len(),
{
    if s.len() == 0 {
        0
    } else {
        digits_value(s.drop_last()) * 10 + digit_value(s.last())
    }
}

/// `s` without the plus sign that it may begin with.
pub open spec fn unsigned_part(s: Seq<char>) -> Seq<char> {
    if s.len() > 0 && s[0] == '+' {
        s.skip(1)
    } else {
        s
    }
}

/// What `s` reads as, where numbers up to `max` can be held: `s` is one or
/// more digits, with or without a plus sign before them, and their value is
/// at most `max`. Anything else reads as nothing.
pub open spec fn parsed_decimal(s: Seq<char>, max: nat) -> Option<nat> {
    let body = unsigned_part(s);
    if body.len() > 0 && all_digits(body) && digits_value(body) <= max {
        Some(digits_value(body))
    } else {
        None
    }
}

/// The digit for a value below ten.
fn digit_of(d: u64) -> (c: char)
    requires
        d < 10,
    ensures
        c == digits()[d as int],
{
    if d == 0 {
        '0'
    } else if d == 1 {
        '1'
    } else if d == 2 {
        '2'
    } else if d == 3 {
        '3'
    } else if d == 4 {
        '4'
    } else if d == 5 {
        '5'
    } else if d == 6 {
        '6'
    } else if d == 7 {
        '7'
    } else if d == 8 {
        '8'
    } else {
        '9'
    }
}

/// The value of a digit, or nothing for another character.
fn value_of(c: char) -> (r: Option<u64>)
    ensures
        r is Some <==> is_digit(c),
        r is Some ==> r->Some_0 == digit_value(c),
{
    if c >= '0' && c <= '9' {
        Some((c as u64) - ('0' as u64))
    } else {
        None
    }
}

/// The digits of `n` from the last to the first.
spec fn decimal_reversed(n: nat) -> Seq<char>
    decreases n,
{
    if n < 10 {
        seq![digits()[n as int]]
    } else {
        seq![digits()[(n % 10) as int]] + decimal_reversed(n / 10)
    }
}

proof fn lemma_decimal_reversed(n: nat)
    ensures
        decimal_reversed(n) == decimal(n).reverse(),
    decreases n,
{
    if n < 10 {
        assert(decimal(n).reverse() =~= decimal_reversed(n));
    } else {
        lemma_decimal_reversed(n / 10);
        let d = digits()[(n % 10) as int];
        assert(decimal(n / 10).push(d).reverse() =~= seq![d] + decimal(n / 10).reverse());
    }
}

/// Writes `n` in decimal notation.
pub fn u64_to_decimal(n: u64) -> (r: String)
    ensures
        r@ == decimal(n as nat),
{
    let mut rev: Vec<char> = Vec::new();
    let mut rest: u64 = n;
    while rest >= 10
        invariant
            rev@ + decimal_reversed(rest as nat) == decimal_reversed(n as nat),
        decreases rest,
    {
        let c = digit_of(rest % 10);
        proof {
            assert(rev@.push(c) + decimal_reversed((rest / 10) as nat) =~= rev@ + (seq![c]
                + decimal_reversed((rest / 10) as nat)));
        }
        rev.push(c);
        rest = rest / 10;
    }
    rev.push(digit_of(rest));
    proof {
        lemma_decimal_reversed(n as nat);
        assert(rev@ =~= decimal(n as nat).reverse());
    }
    let mut out = String::new();
    let mut i: usize = rev.len();
    while i > 0
        invariant
            i <= rev.len(),
            rev@ == decimal(n as nat).reverse(),
            out@ == decimal(n as nat).take(rev.len() - i),
        decreases i,
    {
        i -= 1;
        proof {
            let d = decimal(n as nat);
            assert(d.take(rev.len() - i) =~= d.take(rev.len() - i - 1).push(rev@[i as int]));
        }
        out.push(rev[i]);
    }
    proof {
        let d = decimal(n as nat);
        assert(d.take(rev.len() as int) =~= d);
    }
    out
}

/// The digits read so far never weigh more than all of them together.
proof fn lemma_digits_value_grows(s: Seq<char>, k: int)
    requires
        0 <= k <= s.len(),
    ensures
        digits_value(s.take(k)) <= digits_value(s),
    decreases s.len() - k,
{
    if k < s.len() {
        lemma_digits_value_grows(s.drop_last(), k);
        assert(s.drop_last().take(k) =~= s.take(k));
    } else {
        assert(s.take(k) =~= s);
    }
}

/// Reads `s` as a number of at most `max`: digits, with or without a plus
/// sign before them. Nothing else is accepted: no empty text, no other sign,
/// no blank, no value above `max`.
pub fn parse_decimal(s: &str, max: u64) -> (r: Option<u64>)
    ensures
        r is Some <==> parsed_decimal(s@, max as nat) is Some,
        r is Some ==> r->Some_0 == parsed_decimal(s@, max as nat)->Some_0,
{
    let text = chars_of(s);
    let first: usize = if text.len() > 0 && text[0] == '+' {
        1
    } else {
        0
    };
    let ghost body = unsigned_part(s@);
    proof {
        assert(body =~= text@.skip(first as int));
    }
    if first == text.len() {
        return None;
    }
    let mut acc: u64 = 0;
    let mut i: usize = first;
    proof {
        assert(body.take(0) =~= Seq::<char>::empty());
    }
    while i < text.len()
        invariant
            first <= i <= text.len(),
            body == text@.skip(first as int),
            body == unsigned_part(s@),
            all_digits(body.take(i - first)),
            acc == digits_value(body.take(i - first)),
            acc <= max,
        decreases text.len() - i,
    {
        let ghost k = i - first;
        proof {
            assert(body.take(k + 1).drop_last() =~= body.take(k));
            assert(body.take(k + 1).last() == text@[i as int]);
        }
        match value_of(text[i]) {
            None => {
                assert(!is_digit(body[k]));
                assert(!all_digits(body));
                return None;
            },
            Some(d) => {
                if d > max || acc > (max - d) / 10 {
                    proof {
                        lemma_digits_value_grows(body, k + 1);
                        assert(digits_value(body.take(k + 1)) == acc * 10 + d);
                        assert(acc * 10 + d > max);
                    }
                    return None;
                }
                assert(acc * 10 + d <= max);
                acc = acc * 10 + d;
                proof {
                    assert forall|j: int| 0 <= j < k + 1 implies is_digit(
                        #[trigger] body.take(k + 1)[j],
                    ) by {
                        if j < k {
                            assert(body.take(k + 1)[j] == body.take(k)[j]);
                        }
                    }
                }
            },
        }
        i += 1;
    }
    proof {
        assert(body.take(i - first) =~= body);
    }
    Some(acc)
}

/// A number written in decimal notation reads back as itself, wherever it
/// is within what can be held.
pub proof fn lemma_decimal_round_trip(n: nat, max: nat)
    requires
        n <= max,
    ensures
        parsed_decimal(decimal(n), max) == Some(n),
{
    lemma_decimal_digits(n);
}

/// What `decimal` writes is digits: at least one, none of them a sign, and
/// their value is the number written.
pub proof fn lemma_decimal_digits(n: nat)
    ensures
        decimal(n).len() > 0,
        all_digits(decimal(n)),
        unsigned_part(decimal(n)) == decimal(n),
        digits_value(decimal(n)) == n,
    decreases n,
{
    if n < 10 {
        let s = decimal(n);
        assert(s.drop_last() =~= Seq::<char>::empty());
        assert(digits_value(s.drop_last()) == 0);
    } else {
        lemma_decimal_digits(n / 10);
        let s = decimal(n);
        assert(s.drop_last() =~= decimal(n / 10));
        assert(s[0] == decimal(n / 10)[0]);
    }
}

} // verus!
