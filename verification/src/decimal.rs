//! Decimal rendering of unsigned witnesses, used by value extraction.

use vstd::prelude::*;

verus! {

/// The character for one decimal digit.
pub open spec fn decimal_digit(d: nat) -> char {
    if d == 0 {
        '0'
    } else if d == 1 {
        '1'
    } else if d == 2 {
        '2'
    } else if d == 3 {
        '3'
    } else if d == 4 {
        '4'
    } else if d == 5 {
        '5'
    } else if d == 6 {
        '6'
    } else if d == 7 {
        '7'
    } else if d == 8 {
        '8'
    } else {
        '9'
    }
}

/// The usual decimal rendering of `n`: no leading zeroes, most significant
/// digit first.
pub open spec fn spec_decimal(n: nat) -> Seq<char>
    decreases n,
{
    if n < 10 {
        seq![decimal_digit(n)]
    } else {
        spec_decimal(n / 10).push(decimal_digit(n % 10))
    }
}

fn digit_char(d: u128) -> (c: char)
    requires
        d < 10,
    ensures
        c == decimal_digit(d as nat),
{
    if d == 0 {
        '0'
    } else if d == 1 {
        '1'
    } else if d == 2 {
        '2'
    } else if d == 3 {
        '3'
    } else if d == 4 {
        '4'
    } else if d == 5 {
        '5'
    } else if d == 6 {
        '6'
    } else if d == 7 {
        '7'
    } else if d == 8 {
        '8'
    } else {
        '9'
    }
}

/// Relies on String::push: appends exactly the given character.
#[verifier::external_body]
fn push_char(s: &mut String, c: char)
    ensures
        final(s)@ == old(s)@.push(c),
{
    s.push(c);
}

/// Renders `n` in decimal.
pub fn u128_to_decimal(n: u128) -> (r: String)
    ensures
        r@ == spec_decimal(n as nat),
{
    let mut digits: Vec<char> = Vec::new();
    let mut m = n;
    while m >= 10
        invariant
            spec_decimal(n as nat) == spec_decimal(m as nat) + digits@.reverse(),
        decreases m,
    {
        let ghost pre = digits@;
        digits.push(digit_char(m % 10));
        proof {
            assert(digits@.reverse() =~= seq![decimal_digit((m % 10) as nat)] + pre.reverse());
            assert(spec_decimal((m / 10) as nat) + digits@.reverse() =~= spec_decimal(m as nat)
                + pre.reverse());
        }
        m = m / 10;
    }
    let ghost pre = digits@;
    digits.push(digit_char(m));
    proof {
        assert(digits@.reverse() =~= seq![decimal_digit(m as nat)] + pre.reverse());
        assert(spec_decimal(m as nat) =~= seq![decimal_digit(m as nat)]);
        assert(digits@.reverse() =~= spec_decimal(n as nat));
    }
    let mut r = String::new();
    let mut j: usize = 0;
    while j < digits.len()
        invariant
            j <= digits@.len(),
            r@ == digits@.reverse().take(j as int),
            digits@.reverse() == spec_decimal(n as nat),
        decreases digits@.len() - j,
    {
        let c = digits[digits.len() - 1 - j];
        push_char(&mut r, c);
        proof {
            assert(digits@.reverse()[j as int] == digits@[digits@.len() - 1 - j]);
            assert(r@ =~= digits@.reverse().take(j + 1));
        }
        j = j + 1;
    }
    proof {
        assert(r@ =~= spec_decimal(n as nat));
    }
    r
}

} // verus!
