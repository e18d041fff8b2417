//! Decimal rendering of integers, as `{:?}` prints them.
use vstd::prelude::*;

verus! {

/// The character of a decimal digit.
pub open spec fn digit_char(d: int) -> char {
    if d == 0 {
        '0'
    } else if d == 1 {
        '1'
    } else if d == 2 {
        '2'
    } else if d == 3 {
        '3'
    } else if d == 4 {
        '4'
    } else if d == 5 {
        '5'
    } else if d == 6 {
        '6'
    } else if d == 7 {
        '7'
    } else if d == 8 {
        '8'
    } else {
        '9'
    }
}

/// The decimal digits of a natural number, most significant first, without leading zeros.
pub open spec fn decimal_digits(n: nat) -> Seq<char>
    decreases n,
{
    if n < 10 {
        seq![digit_char(n as int)]
    } else {
        decimal_digits(n / 10).push(digit_char((n % 10) as int))
    }
}

/// The decimal text of an integer: a minus sign before the digits of a negative number.
pub open spec fn decimal_text(n: int) -> Seq<char> {
    if n < 0 {
        seq!['-'] + decimal_digits((-n) as nat)
    } else {
        decimal_digits(n as nat)
    }
}

fn digit_str(d: u8) -> (r: &'static str)
    requires
        d < 10,
    ensures
        r@ == seq![digit_char(d as int)],
{
    proof {
        reveal_strlit("0");
        reveal_strlit("1");
        reveal_strlit("2");
        reveal_strlit("3");
        reveal_strlit("4");
        reveal_strlit("5");
        reveal_strlit("6");
        reveal_strlit("7");
        reveal_strlit("8");
        reveal_strlit("9");
    }
    if d == 0 {
        "0"
    } else if d == 1 {
        "1"
    } else if d == 2 {
        "2"
    } else if d == 3 {
        "3"
    } else if d == 4 {
        "4"
    } else if d == 5 {
        "5"
    } else if d == 6 {
        "6"
    } else if d == 7 {
        "7"
    } else if d == 8 {
        "8"
    } else {
        "9"
    }
}

/// Appends the decimal digits of `n` to `out`.
pub fn write_unsigned(n: u128, out: &mut String)
    ensures
        final(out)@ == old(out)@ + decimal_digits(n as nat),
    decreases n,
{
    if n >= 10 {
        write_unsigned(n / 10, out);
    }
    out.append(digit_str((n % 10) as u8));
    proof {
        assert(n >= 10 ==> decimal_digits(n as nat) == decimal_digits((n / 10) as nat).push(
            digit_char((n % 10) as int),
        ));
    }
}

/// Appends the decimal text of `n` to `out`.
pub fn write_signed(n: i128, out: &mut String)
    ensures
        final(out)@ == old(out)@ + decimal_text(n as int),
{
    if n < 0 {
        proof {
            reveal_strlit("-");
        }
        out.append("-");
        let m: u128 = if n == i128::MIN {
            170141183460469231731687303715884105728u128
        } else {
            (-n) as u128
        };
        write_unsigned(m, out);
        proof {
            assert(old(out)@ + decimal_text(n as int) =~= old(out)@ + seq!['-'] + decimal_digits(
                m as nat,
            ));
        }
    } else {
        write_unsigned(n as u128, out);
    }
}

/// The decimal text of an unsigned integer.
pub fn unsigned_text(n: u128) -> (r: String)
    ensures
        r@ == decimal_digits(n as nat),
{
    let mut s = String::new();
    write_unsigned(n, &mut s);
    proof {
        assert(s@ =~= decimal_digits(n as nat));
    }
    s
}

/// The decimal text of a signed integer.
pub fn signed_text(n: i128) -> (r: String)
    ensures
        r@ == decimal_text(n as int),
{
    let mut s = String::new();
    write_signed(n, &mut s);
    proof {
        assert(s@ =~= decimal_text(n as int));
    }
    s
}

} // verus!
