//! Decimal rendering of the fixed-point sensor values.
//!
//! Concentrations are carried as integer tenths of a microgram per cubic
//! metre.  A published payload or rendered reading shows the value divided
//! by ten: the integer part in decimal, then `.` and the remaining digit,
//! with the fractional part omitted when it is zero (`123` -> `12.3`,
//! `45` -> `4.5`, `120` -> `12`).

use vstd::prelude::*;
use vstd::string::StrSliceExecFns;
use vstd::string::StringExecFns;

verus! {

/// The decimal digit character for `d`.
pub open spec fn spec_digit(d: int) -> char {
    if d == 0 {
        '0'
    } else if d == 1 {
        '1'
    } else if d == 2 {
        '2'
    } else if d == 3 {
        '3'
    } else if d == 4 {
        '4'
    } else if d == 5 {
        '5'
    } else if d == 6 {
        '6'
    } else if d == 7 {
        '7'
    } else if d == 8 {
        '8'
    } else {
        '9'
    }
}

/// The decimal representation of `n`, most significant digit first,
/// with no leading zeros (except for `n == 0` itself).
pub open spec fn spec_dec(n: nat) -> Seq<char>
    decreases n,
{
    if n < 10 {
        seq![spec_digit(n as int)]
    } else {
        spec_dec(n / 10) + seq![spec_digit((n % 10) as int)]
    }
}

/// The rendering of a value held in tenths: `v / 10`, with one fractional
/// digit when `v` is not a multiple of ten.
pub open spec fn spec_tenths(v: nat) -> Seq<char> {
    if v % 10 == 0 {
        spec_dec(v / 10)
    } else {
        spec_dec(v / 10) + seq!['.', spec_digit((v % 10) as int)]
    }
}

fn digit_str(d: u16) -> (r: &'static str)
    requires
        d < 10,
    ensures
        r@ == seq![spec_digit(d as int)],
{
    proof {
        reveal_strlit("0");
        reveal_strlit("1");
        reveal_strlit("2");
        reveal_strlit("3");
        reveal_strlit("4");
        reveal_strlit("5");
        reveal_strlit("6");
        reveal_strlit("7");
        reveal_strlit("8");
        reveal_strlit("9");
    }
    let r: &'static str = if d == 0 {
        "0"
    } else if d == 1 {
        "1"
    } else if d == 2 {
        "2"
    } else if d == 3 {
        "3"
    } else if d == 4 {
        "4"
    } else if d == 5 {
        "5"
    } else if d == 6 {
        "6"
    } else if d == 7 {
        "7"
    } else if d == 8 {
        "8"
    } else {
        "9"
    };
    proof {
        assert(r@ =~= seq![spec_digit(d as int)]);
    }
    r
}

/// The decimal string of `n`.
pub fn dec_string(n: u16) -> (r: String)
    ensures
        r@ == spec_dec(n as nat),
    decreases n,
{
    if n < 10 {
        let r = String::from_str(digit_str(n));
        proof {
            assert(r@ =~= spec_dec(n as nat));
        }
        r
    } else {
        let q = dec_string(n / 10);
        let r = q.concat(digit_str(n % 10));
        proof {
            assert(r@ =~= spec_dec(n as nat));
        }
        r
    }
}

/// The rendering of `v` tenths as a decimal value: `123` -> `"12.3"`,
/// `120` -> `"12"`.
pub fn tenths_string(v: u16) -> (r: String)
    ensures
        r@ == spec_tenths(v as nat),
{
    if v % 10 == 0 {
        let r = dec_string(v / 10);
        proof {
            assert(r@ =~= spec_tenths(v as nat));
        }
        r
    } else {
        let mut r = dec_string(v / 10);
        r.append(".");
        r.append(digit_str(v % 10));
        proof {
            reveal_strlit(".");
            assert(r@ =~= spec_tenths(v as nat));
        }
        r
    }
}

} // verus!
