//! Decimal text helpers: building the display strings of the engine
//! (statistics lines, timestamps) out of verified digit-by-digit formatting.

use vstd::prelude::*;
use vstd::string::StringExecFns;

verus! {

/// The ASCII digit character for `d` (`0 <= d <= 9`).
pub open spec fn char_of_digit(d: int) -> char {
    if d == 0 {
        '0'
    } else if d == 1 {
        '1'
    } else if d == 2 {
        '2'
    } else if d == 3 {
        '3'
    } else if d == 4 {
        '4'
    } else if d == 5 {
        '5'
    } else if d == 6 {
        '6'
    } else if d == 7 {
        '7'
    } else if d == 8 {
        '8'
    } else {
        '9'
    }
}

/// The decimal representation of `n`, without leading zeroes (a single `'0'`
/// for zero itself).
pub open spec fn dec_str(n: int) -> Seq<char>
    decreases n,
{
    if n < 10 {
        seq![char_of_digit(n)]
    } else {
        dec_str(n / 10).push(char_of_digit(n % 10))
    }
}

/// The decimal representation of `n` padded with leading zeroes to two digits.
pub open spec fn pad2_str(n: int) -> Seq<char> {
    seq![char_of_digit(n / 10 % 10), char_of_digit(n % 10)]
}

/// The decimal representation of `n` padded with leading zeroes to three digits.
pub open spec fn pad3_str(n: int) -> Seq<char> {
    seq![char_of_digit(n / 100 % 10), char_of_digit(n / 10 % 10), char_of_digit(n % 10)]
}

/// Append the single digit character for `d` to `s`.
pub fn push_digit(s: &mut String, d: u64)
    requires
        d < 10,
    ensures
        final(s)@ == old(s)@ + seq![char_of_digit(d as int)],
{
    if d == 0 {
        proof {
            reveal_strlit("0");
        }
        s.append("0");
    } else if d == 1 {
        proof {
            reveal_strlit("1");
        }
        s.append("1");
    } else if d == 2 {
        proof {
            reveal_strlit("2");
        }
        s.append("2");
    } else if d == 3 {
        proof {
            reveal_strlit("3");
        }
        s.append("3");
    } else if d == 4 {
        proof {
            reveal_strlit("4");
        }
        s.append("4");
    } else if d == 5 {
        proof {
            reveal_strlit("5");
        }
        s.append("5");
    } else if d == 6 {
        proof {
            reveal_strlit("6");
        }
        s.append("6");
    } else if d == 7 {
        proof {
            reveal_strlit("7");
        }
        s.append("7");
    } else if d == 8 {
        proof {
            reveal_strlit("8");
        }
        s.append("8");
    } else {
        proof {
            reveal_strlit("9");
        }
        s.append("9");
    }
    proof {
        assert(s@ =~= old(s)@ + seq![char_of_digit(d as int)]);
    }
}

/// Append the decimal representation of `n` to `s`.
pub fn push_u64(s: &mut String, n: u64)
    ensures
        final(s)@ == old(s)@ + dec_str(n as int),
    decreases n,
{
    if n < 10 {
        push_digit(s, n);
    } else {
        push_u64(s, n / 10);
        push_digit(s, n % 10);
        proof {
            assert(s@ =~= old(s)@ + dec_str(n as int));
        }
    }
}

/// The decimal representation of `n`.
pub fn u64_to_string(n: u64) -> (r: String)
    ensures
        r@ == dec_str(n as int),
{
    let mut s = String::new();
    push_u64(&mut s, n);
    proof {
        assert(s@ =~= dec_str(n as int));
    }
    s
}

/// Append `n` as exactly two digits (`n < 100`), zero-padded.
pub fn push_pad2(s: &mut String, n: u64)
    requires
        n < 100,
    ensures
        final(s)@ == old(s)@ + pad2_str(n as int),
{
    push_digit(s, n / 10);
    push_digit(s, n % 10);
    proof {
        assert(s@ =~= old(s)@ + pad2_str(n as int));
    }
}

/// A microsecond duration as milliseconds with one decimal digit, truncated
/// toward zero (`1550` becomes `1.5`).
pub open spec fn ms1_str(us: int) -> Seq<char> {
    dec_str(us / 1000) + seq!['.'] + seq![char_of_digit(us / 100 % 10)]
}

/// Append `us` as milliseconds with one truncated decimal digit.
pub fn push_ms1(s: &mut String, us: u64)
    ensures
        final(s)@ == old(s)@ + ms1_str(us as int),
{
    push_u64(s, us / 1000);
    proof {
        reveal_strlit(".");
    }
    s.append(".");
    push_digit(s, us / 100 % 10);
    proof {
        assert(s@ =~= old(s)@ + ms1_str(us as int));
    }
}

/// Append `n` as exactly three digits (`n < 1000`), zero-padded.
pub fn push_pad3(s: &mut String, n: u64)
    requires
        n < 1000,
    ensures
        final(s)@ == old(s)@ + pad3_str(n as int),
{
    push_digit(s, n / 100);
    push_digit(s, n / 10 % 10);
    push_digit(s, n % 10);
    proof {
        assert(s@ =~= old(s)@ + pad3_str(n as int));
    }
}

} // verus!
