//! Decimal text for integers: what a number looks like when it is written
//! into an identifier or shown to a client.

use vstd::prelude::*;
use vstd::string::StringExecFns;

verus! {

/// The character of a single decimal digit.
pub open spec fn digit_char(d: nat) -> char
    recommends
        d < 10,
{
    if d == 0 {
        '0'
    } else if d == 1 {
        '1'
    } else if d == 2 {
        '2'
    } else if d == 3 {
        '3'
    } else if d == 4 {
        '4'
    } else if d == 5 {
        '5'
    } else if d == 6 {
        '6'
    } else if d == 7 {
        '7'
    } else if d == 8 {
        '8'
    } else {
        '9'
    }
}

/// The decimal digits of a natural number, most significant first, without
/// leading zeros; zero is written as a single `0`.
pub open spec fn digits(n: nat) -> Seq<char>
    decreases n,
{
    if n < 10 {
        seq![digit_char(n)]
    } else {
        digits(n / 10).push(digit_char(n % 10))
    }
}

/// The decimal text of an integer: a minus sign for a negative number, then
/// the digits of its magnitude.
pub open spec fn decimal(n: int) -> Seq<char> {
    if n < 0 {
        seq!['-'] + digits((-n) as nat)
    } else {
        digits(n as nat)
    }
}

fn digit_text(d: u64) -> (s: &'static str)
    requires
        d < 10,
    ensures
        s@ == seq![digit_char(d as nat)],
{
    proof {
        reveal_strlit("0");
        reveal_strlit("1");
        reveal_strlit("2");
        reveal_strlit("3");
        reveal_strlit("4");
        reveal_strlit("5");
        reveal_strlit("6");
        reveal_strlit("7");
        reveal_strlit("8");
        reveal_strlit("9");
    }
    let s = if d == 0 {
        "0"
    } else if d == 1 {
        "1"
    } else if d == 2 {
        "2"
    } else if d == 3 {
        "3"
    } else if d == 4 {
        "4"
    } else if d == 5 {
        "5"
    } else if d == 6 {
        "6"
    } else if d == 7 {
        "7"
    } else if d == 8 {
        "8"
    } else {
        "9"
    };
    assert(s@ =~= seq![digit_char(d as nat)]);
    s
}

/// Writes a natural number in decimal.
pub fn unsigned_decimal(n: u64) -> (s: String)
    ensures
        s@ == digits(n as nat),
{
    let mut rest: u64 = n / 10;
    let mut out: String = digit_text(n % 10).to_owned();
    assert(digits(n as nat) =~= if rest > 0 {
        digits(rest as nat) + out@
    } else {
        out@
    });
    while rest > 0
        invariant
            digits(n as nat) == if rest > 0 {
                digits(rest as nat) + out@
            } else {
                out@
            },
        decreases rest,
    {
        let d: u64 = rest % 10;
        let ghost before = rest;
        let ghost tail = out@;
        rest = rest / 10;
        out = digit_text(d).to_owned().concat(out.as_str());
        assert(out@ == seq![digit_char(d as nat)] + tail);
        assert(digits(before as nat) + tail =~= if rest > 0 {
            digits(rest as nat) + out@
        } else {
            out@
        });
    }
    out
}

/// Writes an integer in decimal.
pub fn signed_decimal(n: i64) -> (s: String)
    ensures
        s@ == decimal(n as int),
{
    if n < 0 {
        let magnitude: u64 = (-(n + 1)) as u64 + 1;
        let body = unsigned_decimal(magnitude);
        proof {
            reveal_strlit("-");
        }
        let s = "-".to_owned().concat(body.as_str());
        assert(s@ =~= seq!['-'] + digits((-n) as nat));
        s
    } else {
        unsigned_decimal(n as u64)
    }
}

} // verus!
