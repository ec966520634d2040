//! Decimal text of integers, as it appears in labels, addresses and replies.

use vstd::prelude::*;
use vstd::string::*;

verus! {

/// The character that writes the decimal digit `d`.
pub open spec fn digit_char(d: nat) -> char
    recommends
        d < 10,
{
    if d == 0 {
        '0'
    } else if d == 1 {
        '1'
    } else if d == 2 {
        '2'
    } else if d == 3 {
        '3'
    } else if d == 4 {
        '4'
    } else if d == 5 {
        '5'
    } else if d == 6 {
        '6'
    } else if d == 7 {
        '7'
    } else if d == 8 {
        '8'
    } else {
        '9'
    }
}

/// The decimal text of a natural number: most significant digit first, no
/// leading zeros, `"0"` for zero.
pub open spec fn decimal_of_nat(n: nat) -> Seq<char>
    decreases n,
{
    if n < 10 {
        seq![digit_char(n)]
    } else {
        decimal_of_nat(n / 10).push(digit_char(n % 10))
    }
}

/// The decimal text of an integer: a minus sign before the magnitude of a
/// negative number, no sign otherwise.
pub open spec fn decimal_of_int(i: int) -> Seq<char> {
    if i < 0 {
        seq!['-'] + decimal_of_nat((-i) as nat)
    } else {
        decimal_of_nat(i as nat)
    }
}

/// A decimal text has one character per digit, so it is never empty.
pub proof fn lemma_decimal_of_nat_nonempty(n: nat)
    ensures
        decimal_of_nat(n).len() >= 1,
    decreases n,
{
    if n >= 10 {
        lemma_decimal_of_nat_nonempty(n / 10);
    }
}

fn digit_str(d: u64) -> (s: &'static str)
    requires
        d < 10,
    ensures
        s@ =~= seq![digit_char(d as nat)],
{
    proof {
        reveal_strlit("0");
        reveal_strlit("1");
        reveal_strlit("2");
        reveal_strlit("3");
        reveal_strlit("4");
        reveal_strlit("5");
        reveal_strlit("6");
        reveal_strlit("7");
        reveal_strlit("8");
        reveal_strlit("9");
    }
    if d == 0 {
        "0"
    } else if d == 1 {
        "1"
    } else if d == 2 {
        "2"
    } else if d == 3 {
        "3"
    } else if d == 4 {
        "4"
    } else if d == 5 {
        "5"
    } else if d == 6 {
        "6"
    } else if d == 7 {
        "7"
    } else if d == 8 {
        "8"
    } else {
        "9"
    }
}

/// Appends the decimal text of `n` to `out`.
pub fn push_decimal_u64(out: &mut String, n: u64)
    ensures
        final(out)@ == old(out)@ + decimal_of_nat(n as nat),
    decreases n,
{
    if n >= 10 {
        push_decimal_u64(out, n / 10);
    }
    out.append(digit_str(n % 10));
    proof {
        let head = old(out)@;
        let digit = digit_char((n % 10) as nat);
        if n >= 10 {
            let upper = decimal_of_nat((n / 10) as nat);
            assert((head + upper) + seq![digit] =~= head + upper.push(digit));
        } else {
            assert(head + seq![digit] =~= head + decimal_of_nat(n as nat));
        }
    }
}

/// Appends the decimal text of `v` to `out`.
pub fn push_decimal_i64(out: &mut String, v: i64)
    ensures
        final(out)@ == old(out)@ + decimal_of_int(v as int),
{
    if v < 0 {
        proof {
            reveal_strlit("-");
        }
        out.append("-");
        let below: i64 = -(v + 1);
        let magnitude: u64 = (below as u64) + 1;
        push_decimal_u64(out, magnitude);
        proof {
            let digits = decimal_of_nat(magnitude as nat);
            assert("-"@ =~= seq!['-']);
            assert((old(out)@ + seq!['-']) + digits =~= old(out)@ + (seq!['-'] + digits));
        }
    } else {
        push_decimal_u64(out, v as u64);
    }
}

/// The decimal text of `n` as a string of its own.
pub fn decimal_u64(n: u64) -> (text: String)
    ensures
        text@ == decimal_of_nat(n as nat),
{
    let mut text = String::new();
    push_decimal_u64(&mut text, n);
    assert(Seq::<char>::empty() + decimal_of_nat(n as nat) =~= decimal_of_nat(n as nat));
    text
}

/// The decimal text of `v` as a string of its own.
pub fn decimal_i64(v: i64) -> (text: String)
    ensures
        text@ == decimal_of_int(v as int),
{
    let mut text = String::new();
    push_decimal_i64(&mut text, v);
    assert(Seq::<char>::empty() + decimal_of_int(v as int) =~= decimal_of_int(v as int));
    text
}

} // verus!
