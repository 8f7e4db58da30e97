//! Decimal rendering of counters for the HUD.
use vstd::prelude::*;

verus! {

/// The character of a decimal digit.
pub open spec fn digit_char(d: int) -> char {
    if d == 0 {
        '0'
    } else if d == 1 {
        '1'
    } else if d == 2 {
        '2'
    } else if d == 3 {
        '3'
    } else if d == 4 {
        '4'
    } else if d == 5 {
        '5'
    } else if d == 6 {
        '6'
    } else if d == 7 {
        '7'
    } else if d == 8 {
        '8'
    } else {
        '9'
    }
}

/// The decimal notation of `n`, without leading zeros.
pub open spec fn decimal(n: nat) -> Seq<char>
    decreases n,
{
    if n < 10 {
        seq![digit_char(n as int)]
    } else {
        decimal(n / 10) + seq![digit_char((n % 10) as int)]
    }
}

/// The decimal notation of `n` padded with a zero to at least two digits.
pub open spec fn two_digits(n: nat) -> Seq<char> {
    if n < 10 {
        seq!['0'] + decimal(n)
    } else {
        decimal(n)
    }
}

/// Appends one decimal digit.
pub fn append_digit(s: &mut String, d: u64)
    requires
        d < 10,
    ensures
        final(s)@ == old(s)@.push(digit_char(d as int)),
{
    if d == 0 {
        s.append("0");
        proof {
            reveal_strlit("0");
        }
    } else if d == 1 {
        s.append("1");
        proof {
            reveal_strlit("1");
        }
    } else if d == 2 {
        s.append("2");
        proof {
            reveal_strlit("2");
        }
    } else if d == 3 {
        s.append("3");
        proof {
            reveal_strlit("3");
        }
    } else if d == 4 {
        s.append("4");
        proof {
            reveal_strlit("4");
        }
    } else if d == 5 {
        s.append("5");
        proof {
            reveal_strlit("5");
        }
    } else if d == 6 {
        s.append("6");
        proof {
            reveal_strlit("6");
        }
    } else if d == 7 {
        s.append("7");
        proof {
            reveal_strlit("7");
        }
    } else if d == 8 {
        s.append("8");
        proof {
            reveal_strlit("8");
        }
    } else {
        s.append("9");
        proof {
            reveal_strlit("9");
        }
    }
    assert(s@ =~= old(s)@.push(digit_char(d as int)));
}

/// Appends the decimal notation of `n`.
pub fn append_decimal(s: &mut String, n: u64)
    ensures
        final(s)@ == old(s)@ + decimal(n as nat),
    decreases n,
{
    if n >= 10 {
        append_decimal(s, n / 10);
        append_digit(s, n % 10);
        assert(s@ =~= old(s)@ + decimal(n as nat));
    } else {
        append_digit(s, n);
        assert(s@ =~= old(s)@ + decimal(n as nat));
    }
}

/// Appends the decimal notation of `n`, padded to at least two digits.
pub fn append_two_digits(s: &mut String, n: u64)
    ensures
        final(s)@ == old(s)@ + two_digits(n as nat),
{
    if n < 10 {
        append_digit(s, 0);
    }
    append_decimal(s, n);
    assert(s@ =~= old(s)@ + two_digits(n as nat));
}

} // verus!
