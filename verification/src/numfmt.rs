//! Verified textual forms of the plain values that appear in query
//! strings: decimal numbers and booleans.

use vstd::prelude::*;
use vstd::string::StringExecFns;

verus! {

/// The decimal digit character for `d` (`d < 10`).
pub open spec fn digit_char(d: nat) -> char
    recommends
        d < 10,
{
    if d == 0 {
        '0'
    } else if d == 1 {
        '1'
    } else if d == 2 {
        '2'
    } else if d == 3 {
        '3'
    } else if d == 4 {
        '4'
    } else if d == 5 {
        '5'
    } else if d == 6 {
        '6'
    } else if d == 7 {
        '7'
    } else if d == 8 {
        '8'
    } else {
        '9'
    }
}

/// The decimal representation of `n`, most significant digit first, with no
/// leading zero except for zero itself.
pub open spec fn dec_digits(n: nat) -> Seq<char>
    decreases n,
{
    if n < 10 {
        seq![digit_char(n)]
    } else {
        dec_digits(n / 10).push(digit_char(n % 10))
    }
}

/// The textual form of a boolean: `true` or `false`.
pub open spec fn bool_chars(b: bool) -> Seq<char> {
    if b {
        "true"@
    } else {
        "false"@
    }
}

/// The one-character string for the digit `d`.
fn digit_str(d: usize) -> (r: &'static str)
    requires
        d < 10,
    ensures
        r@ == seq![digit_char(d as nat)],
{
    match d {
        0 => {
            proof {
                reveal_strlit("0");
            }
            let r = "0";
            proof {
                assert(r@ =~= seq![digit_char(0)]);
            }
            r
        },
        1 => {
            proof {
                reveal_strlit("1");
            }
            let r = "1";
            proof {
                assert(r@ =~= seq![digit_char(1)]);
            }
            r
        },
        2 => {
            proof {
                reveal_strlit("2");
            }
            let r = "2";
            proof {
                assert(r@ =~= seq![digit_char(2)]);
            }
            r
        },
        3 => {
            proof {
                reveal_strlit("3");
            }
            let r = "3";
            proof {
                assert(r@ =~= seq![digit_char(3)]);
            }
            r
        },
        4 => {
            proof {
                reveal_strlit("4");
            }
            let r = "4";
            proof {
                assert(r@ =~= seq![digit_char(4)]);
            }
            r
        },
        5 => {
            proof {
                reveal_strlit("5");
            }
            let r = "5";
            proof {
                assert(r@ =~= seq![digit_char(5)]);
            }
            r
        },
        6 => {
            proof {
                reveal_strlit("6");
            }
            let r = "6";
            proof {
                assert(r@ =~= seq![digit_char(6)]);
            }
            r
        },
        7 => {
            proof {
                reveal_strlit("7");
            }
            let r = "7";
            proof {
                assert(r@ =~= seq![digit_char(7)]);
            }
            r
        },
        8 => {
            proof {
                reveal_strlit("8");
            }
            let r = "8";
            proof {
                assert(r@ =~= seq![digit_char(8)]);
            }
            r
        },
        _ => {
            proof {
                reveal_strlit("9");
            }
            let r = "9";
            proof {
                assert(r@ =~= seq![digit_char(9)]);
            }
            r
        },
    }
}

/// The decimal form of `n`.
pub fn usize_to_dec(n: usize) -> (s: String)
    ensures
        s@ == dec_digits(n as nat),
    decreases n,
{
    if n < 10 {
        digit_str(n).to_owned()
    } else {
        let mut s = usize_to_dec(n / 10);
        s.append(digit_str(n % 10));
        proof {
            assert(dec_digits((n / 10) as nat) + seq![digit_char((n % 10) as nat)] =~= dec_digits(
                (n / 10) as nat,
            ).push(digit_char((n % 10) as nat)));
        }
        s
    }
}

/// The textual form of `b`.
pub fn bool_to_text(b: bool) -> (s: &'static str)
    ensures
        s@ == bool_chars(b),
{
    if b {
        "true"
    } else {
        "false"
    }
}

} // verus!
