use vstd::prelude::*;

verus! {

use crate::escape::push_char;

/// The decimal digit character for one digit value.
pub open spec fn spec_digit_char(d: int) -> char {
    if d == 0 {
        '0'
    } else if d == 1 {
        '1'
    } else if d == 2 {
        '2'
    } else if d == 3 {
        '3'
    } else if d == 4 {
        '4'
    } else if d == 5 {
        '5'
    } else if d == 6 {
        '6'
    } else if d == 7 {
        '7'
    } else if d == 8 {
        '8'
    } else {
        '9'
    }
}

/// The usual decimal numeral of a non-negative number, most significant
/// digit first, with no leading zeros (zero itself is "0").
pub open spec fn spec_udec(n: nat) -> Seq<char>
    decreases n,
{
    if n < 10 {
        seq![spec_digit_char(n as int)]
    } else {
        spec_udec(n / 10) + seq![spec_digit_char((n % 10) as int)]
    }
}

/// The decimal numeral of a signed number: a minus sign before the
/// numeral of its magnitude when the number is negative.
pub open spec fn spec_idec(n: int) -> Seq<char> {
    if n < 0 {
        seq!['-'] + spec_udec((-n) as nat)
    } else {
        spec_udec(n as nat)
    }
}

fn digit_char(d: u64) -> (r: char)
    requires
        d < 10,
    ensures
        r == spec_digit_char(d as int),
{
    if d == 0 {
        '0'
    } else if d == 1 {
        '1'
    } else if d == 2 {
        '2'
    } else if d == 3 {
        '3'
    } else if d == 4 {
        '4'
    } else if d == 5 {
        '5'
    } else if d == 6 {
        '6'
    } else if d == 7 {
        '7'
    } else if d == 8 {
        '8'
    } else {
        '9'
    }
}

/// Render a non-negative number in decimal.
pub fn u64_to_dec(n: u64) -> (r: String)
    ensures
        r@ == spec_udec(n as nat),
{
    let mut rev: Vec<char> = Vec::new();
    let mut m: u64 = n;
    proof {
        assert(spec_udec(n as nat) =~= spec_udec(m as nat) + rev@.reverse());
    }
    while m >= 10
        invariant
            spec_udec(n as nat) == spec_udec(m as nat) + rev@.reverse(),
        decreases m,
    {
        let ghost rev0 = rev@;
        let d = m % 10;
        rev.push(digit_char(d));
        m = m / 10;
        proof {
            assert(rev@.reverse() =~= seq![spec_digit_char(d as int)] + rev0.reverse());
            assert(spec_udec(n as nat) =~= spec_udec(m as nat) + rev@.reverse());
        }
    }
    let mut out = String::new();
    push_char(&mut out, digit_char(m));
    let mut j: usize = rev.len();
    proof {
        assert(out@ =~= spec_udec(m as nat) + rev@.subrange(j as int, rev@.len() as int).reverse());
    }
    while j > 0
        invariant
            j <= rev@.len(),
            out@ == spec_udec(m as nat) + rev@.subrange(j as int, rev@.len() as int).reverse(),
        decreases j,
    {
        let ghost out0 = out@;
        let c = rev[j - 1];
        push_char(&mut out, c);
        j = j - 1;
        proof {
            assert(rev@.subrange(j as int, rev@.len() as int).reverse() =~= rev@.subrange(
                j + 1,
                rev@.len() as int,
            ).reverse() + seq![rev@[j as int]]);
            assert(out@ =~= spec_udec(m as nat) + rev@.subrange(j as int, rev@.len() as int).reverse());
        }
    }
    proof {
        assert(rev@.subrange(0, rev@.len() as int) =~= rev@);
    }
    out
}

/// Render a signed number in decimal, with a leading minus sign when negative.
pub fn i64_to_dec(n: i64) -> (r: String)
    ensures
        r@ == spec_idec(n as int),
{
    if n >= 0 {
        u64_to_dec(n as u64)
    } else {
        let mag: u64 = ((-(n + 1)) as u64) + 1;
        proof {
            assert(mag as int == -(n as int));
        }
        let mut out = String::new();
        push_char(&mut out, '-');
        let digits = u64_to_dec(mag);
        out.append(digits.as_str());
        proof {
            assert(out@ =~= seq!['-'] + spec_udec((-(n as int)) as nat));
        }
        out
    }
}

} // verus!
