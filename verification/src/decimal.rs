//! Verified decimal rendering of integers.
//!
//! Integer residuals are rendered the way they are conventionally written:
//! most significant digit first, a leading minus sign when negative.  The
//! spec functions here define that text and the executable functions
//! produce exactly it.

use vstd::prelude::*;
use vstd::string::StringExecFns;

use crate::fallible::DebugText;

verus! {

/// The character of one decimal digit.
pub open spec fn digit_char(d: nat) -> char {
    if d == 0 {
        '0'
    } else if d == 1 {
        '1'
    } else if d == 2 {
        '2'
    } else if d == 3 {
        '3'
    } else if d == 4 {
        '4'
    } else if d == 5 {
        '5'
    } else if d == 6 {
        '6'
    } else if d == 7 {
        '7'
    } else if d == 8 {
        '8'
    } else {
        '9'
    }
}

/// The decimal text of a natural number, most significant digit first and
/// without leading zeroes.
pub open spec fn dec_text(n: nat) -> Seq<char>
    decreases n,
{
    if n < 10 {
        seq![digit_char(n)]
    } else {
        dec_text(n / 10) + seq![digit_char(n % 10)]
    }
}

/// The decimal text of an integer: a minus sign before the magnitude when
/// it is negative.
pub open spec fn dec_text_signed(n: int) -> Seq<char> {
    if n >= 0 {
        dec_text(n as nat)
    } else {
        seq!['-'] + dec_text((-n) as nat)
    }
}

/// The one-character text of a single digit.
fn digit_str(d: u64) -> (r: &'static str)
    requires
        d < 10,
    ensures
        r@ == seq![digit_char(d as nat)],
{
    match d {
        0 => {
            proof {
                reveal_strlit("0");
                assert("0"@ =~= seq![digit_char(0)]);
            }
            "0"
        },
        1 => {
            proof {
                reveal_strlit("1");
                assert("1"@ =~= seq![digit_char(1)]);
            }
            "1"
        },
        2 => {
            proof {
                reveal_strlit("2");
                assert("2"@ =~= seq![digit_char(2)]);
            }
            "2"
        },
        3 => {
            proof {
                reveal_strlit("3");
                assert("3"@ =~= seq![digit_char(3)]);
            }
            "3"
        },
        4 => {
            proof {
                reveal_strlit("4");
                assert("4"@ =~= seq![digit_char(4)]);
            }
            "4"
        },
        5 => {
            proof {
                reveal_strlit("5");
                assert("5"@ =~= seq![digit_char(5)]);
            }
            "5"
        },
        6 => {
            proof {
                reveal_strlit("6");
                assert("6"@ =~= seq![digit_char(6)]);
            }
            "6"
        },
        7 => {
            proof {
                reveal_strlit("7");
                assert("7"@ =~= seq![digit_char(7)]);
            }
            "7"
        },
        8 => {
            proof {
                reveal_strlit("8");
                assert("8"@ =~= seq![digit_char(8)]);
            }
            "8"
        },
        _ => {
            proof {
                reveal_strlit("9");
                assert("9"@ =~= seq![digit_char(9)]);
            }
            "9"
        },
    }
}

/// The decimal text of an unsigned number.
pub fn u64_dec(n: u64) -> (r: String)
    ensures
        r@ == dec_text(n as nat),
    decreases n,
{
    if n < 10 {
        digit_str(n).to_owned()
    } else {
        let prefix = u64_dec(n / 10);
        prefix.concat(digit_str(n % 10))
    }
}

/// The decimal text of a signed number.
pub fn i64_dec(n: i64) -> (r: String)
    ensures
        r@ == dec_text_signed(n as int),
{
    if n >= 0 {
        u64_dec(n as u64)
    } else {
        let m: u64 = (-(n as i128)) as u64;
        proof {
            assert(m == -(n as int));
        }
        let mut s = "-".to_owned();
        let d = u64_dec(m);
        s.append(d.as_str());
        proof {
            reveal_strlit("-");
            assert(s@ =~= dec_text_signed(n as int));
        }
        s
    }
}

impl DebugText for u64 {
    open spec fn debug_text(&self) -> Seq<char> {
        dec_text(*self as nat)
    }

    fn render(&self) -> (r: String) {
        u64_dec(*self)
    }
}

impl DebugText for u32 {
    open spec fn debug_text(&self) -> Seq<char> {
        dec_text(*self as nat)
    }

    fn render(&self) -> (r: String) {
        u64_dec(*self as u64)
    }
}

impl DebugText for i64 {
    open spec fn debug_text(&self) -> Seq<char> {
        dec_text_signed(*self as int)
    }

    fn render(&self) -> (r: String) {
        i64_dec(*self)
    }
}

impl DebugText for i32 {
    open spec fn debug_text(&self) -> Seq<char> {
        dec_text_signed(*self as int)
    }

    fn render(&self) -> (r: String) {
        i64_dec(*self as i64)
    }
}

} // verus!
