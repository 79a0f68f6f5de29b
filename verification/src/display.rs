//! The status line shown on the character display, and the matching
//! diagnostic log record.
//!
//! One measurement is rendered as `Distance: <cm>` with the centimeter
//! value written to two fractional digits, rounded to the nearest
//! hundredth (an exact half rounds up). The rendering is specified
//! character by character, so the produced string is pinned exactly.

use crate::distance::Distance;
use vstd::prelude::*;

verus! {

/// The character for the decimal digit `d`.
pub open spec fn digit_char(d: int) -> char {
    if d == 0 {
        '0'
    } else if d == 1 {
        '1'
    } else if d == 2 {
        '2'
    } else if d == 3 {
        '3'
    } else if d == 4 {
        '4'
    } else if d == 5 {
        '5'
    } else if d == 6 {
        '6'
    } else if d == 7 {
        '7'
    } else if d == 8 {
        '8'
    } else {
        '9'
    }
}

/// The decimal digits of `n`, most significant first, with no leading
/// zeros (a lone zero for `n == 0`).
pub open spec fn dec_digits(n: nat) -> Seq<char>
    decreases n,
{
    if n < 10 {
        seq![digit_char(n as int)]
    } else {
        dec_digits((n / 10) as nat).push(digit_char((n % 10) as int))
    }
}

/// A distance of `um` micrometers rounded to the nearest hundredth of a
/// centimeter (one hundredth is 100 micrometers); an exact half rounds
/// up, away from zero.
pub open spec fn rounded_hundredths(um: nat) -> nat {
    (um + 50) / 100
}

/// The status line for a distance of `um` micrometers: the label, then
/// the centimeter value to two fractional digits, rounded to the nearest
/// hundredth.
pub open spec fn spec_display_line(um: nat) -> Seq<char> {
    "Distance: "@ + dec_digits(rounded_hundredths(um) / 100) + seq![
        '.',
        digit_char(((rounded_hundredths(um) / 10) % 10) as int),
        digit_char((rounded_hundredths(um) % 10) as int),
    ]
}

/// The diagnostic log record of one successful cycle: the status line
/// with the unit spelled out.
pub open spec fn spec_log_line(um: nat) -> Seq<char> {
    spec_display_line(um) + " cm"@
}

/// The one-character string for the decimal digit `d`.
fn digit_str(d: u64) -> (r: &'static str)
    requires
        d < 10,
    ensures
        r@ == seq![digit_char(d as int)],
{
    match d {
        0 => {
            proof {
                reveal_strlit("0");
                assert("0"@ =~= seq![digit_char(0)]);
            }
            "0"
        },
        1 => {
            proof {
                reveal_strlit("1");
                assert("1"@ =~= seq![digit_char(1)]);
            }
            "1"
        },
        2 => {
            proof {
                reveal_strlit("2");
                assert("2"@ =~= seq![digit_char(2)]);
            }
            "2"
        },
        3 => {
            proof {
                reveal_strlit("3");
                assert("3"@ =~= seq![digit_char(3)]);
            }
            "3"
        },
        4 => {
            proof {
                reveal_strlit("4");
                assert("4"@ =~= seq![digit_char(4)]);
            }
            "4"
        },
        5 => {
            proof {
                reveal_strlit("5");
                assert("5"@ =~= seq![digit_char(5)]);
            }
            "5"
        },
        6 => {
            proof {
                reveal_strlit("6");
                assert("6"@ =~= seq![digit_char(6)]);
            }
            "6"
        },
        7 => {
            proof {
                reveal_strlit("7");
                assert("7"@ =~= seq![digit_char(7)]);
            }
            "7"
        },
        8 => {
            proof {
                reveal_strlit("8");
                assert("8"@ =~= seq![digit_char(8)]);
            }
            "8"
        },
        _ => {
            proof {
                reveal_strlit("9");
                assert("9"@ =~= seq![digit_char(9)]);
            }
            "9"
        },
    }
}

/// Renders `n` in decimal, most significant digit first.
pub fn u64_to_decimal(n: u64) -> (r: String)
    ensures
        r@ == dec_digits(n as nat),
    decreases n,
{
    if n < 10 {
        String::from_str(digit_str(n))
    } else {
        let mut s = u64_to_decimal(n / 10);
        s.append(digit_str(n % 10));
        proof {
            assert(s@ =~= dec_digits(n as nat));
        }
        s
    }
}

/// Renders the status line for one measured distance, exactly as
/// [`spec_display_line`] lays it out: the centimeter value to two
/// fractional digits, rounded to the nearest hundredth.
pub fn display_line(d: &Distance) -> (r: String)
    ensures
        r@ == spec_display_line(d.micrometers as nat),
{
    let wide: u128 = ((d.micrometers as u128) + 50) / 100;
    let hundredths: u64 = wide as u64;
    let mut s = String::from_str("Distance: ");
    let whole = u64_to_decimal(hundredths / 100);
    s.append(whole.as_str());
    proof {
        reveal_strlit(".");
        assert("."@ =~= seq!['.']);
    }
    s.append(".");
    s.append(digit_str((hundredths / 10) % 10));
    s.append(digit_str(hundredths % 10));
    proof {
        assert(s@ =~= spec_display_line(d.micrometers as nat));
    }
    s
}

/// Renders the diagnostic log record for one measured distance: the
/// status line followed by the unit.
pub fn log_line(d: &Distance) -> (r: String)
    ensures
        r@ == spec_log_line(d.micrometers as nat),
{
    let mut s = display_line(d);
    s.append(" cm");
    s
}

} // verus!
