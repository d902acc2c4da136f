//! Decimal rendering of the small integers that appear in message lines.

use vstd::prelude::*;
use vstd::string::StringExecFns;

verus! {

/// The decimal digit character for one value below ten.
pub open spec fn spec_digit_char(d: nat) -> char {
    if d == 0 {
        '0'
    } else if d == 1 {
        '1'
    } else if d == 2 {
        '2'
    } else if d == 3 {
        '3'
    } else if d == 4 {
        '4'
    } else if d == 5 {
        '5'
    } else if d == 6 {
        '6'
    } else if d == 7 {
        '7'
    } else if d == 8 {
        '8'
    } else {
        '9'
    }
}

/// The decimal digit string of a non-negative value, most significant digit
/// first, without leading zeros (a lone zero for zero itself).
pub open spec fn spec_udec(n: nat) -> Seq<char>
    decreases n,
{
    if n < 10 {
        seq![spec_digit_char(n)]
    } else {
        spec_udec(n / 10) + seq![spec_digit_char(n % 10)]
    }
}

/// The decimal string of a signed value: a minus sign before the digit
/// string of the magnitude for negative values.
pub open spec fn spec_idec(n: int) -> Seq<char> {
    if n < 0 {
        seq!['-'] + spec_udec((-n) as nat)
    } else {
        spec_udec(n as nat)
    }
}

fn digit_str(d: u8) -> (s: &'static str)
    requires
        d < 10,
    ensures
        s@ == seq![spec_digit_char(d as nat)],
{
    proof {
        reveal_strlit("0");
        reveal_strlit("1");
        reveal_strlit("2");
        reveal_strlit("3");
        reveal_strlit("4");
        reveal_strlit("5");
        reveal_strlit("6");
        reveal_strlit("7");
        reveal_strlit("8");
        reveal_strlit("9");
    }
    let s: &'static str = match d {
        0 => "0",
        1 => "1",
        2 => "2",
        3 => "3",
        4 => "4",
        5 => "5",
        6 => "6",
        7 => "7",
        8 => "8",
        _ => "9",
    };
    proof {
        assert(s@ =~= seq![spec_digit_char(d as nat)]);
    }
    s
}

fn udec_string(n: u8) -> (s: String)
    ensures
        s@ == spec_udec(n as nat),
    decreases n,
{
    if n < 10 {
        String::from_str(digit_str(n))
    } else {
        let mut s = udec_string(n / 10);
        s.append(digit_str(n % 10));
        proof {
            assert(s@ =~= spec_udec(n as nat));
        }
        s
    }
}

/// Renders a signed count as its decimal string, sign included.
pub fn idec_string(n: i8) -> (s: String)
    ensures
        s@ == spec_idec(n as int),
{
    if n < 0 {
        let wide: i16 = n as i16;
        let magnitude: u8 = (-wide) as u8;
        proof {
            reveal_strlit("-");
        }
        let mut s = String::from_str("-");
        let digits = udec_string(magnitude);
        s.append(digits.as_str());
        proof {
            assert(magnitude as nat == (-(n as int)) as nat);
            assert(s@ =~= spec_idec(n as int));
        }
        s
    } else {
        let s = udec_string(n as u8);
        proof {
            assert(s@ =~= spec_idec(n as int));
        }
        s
    }
}

} // verus!
