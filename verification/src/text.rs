//! Decimal rendering of integers and joining of texts, as used in file
//! names, paths and messages.
use vstd::prelude::*;

verus! {

/// The character of decimal digit `d`.
pub open spec fn digit_char(d: int) -> char {
    (48 + d) as char
}

/// The decimal digits of `n`, most significant first, without leading zeros.
pub open spec fn decimal(n: nat) -> Seq<char>
    decreases n,
{
    if n < 10 {
        seq![digit_char(n as int)]
    } else {
        decimal(n / 10).push(digit_char((n % 10) as int))
    }
}

/// The decimal digits of `n` are at least one character long, and at least
/// two once `n` reaches ten.
pub proof fn lemma_decimal_len(n: nat)
    ensures
        decimal(n).len() >= 1,
        n >= 10 ==> decimal(n).len() >= 2,
    decreases n,
{
    if n >= 10 {
        lemma_decimal_len(n / 10);
    }
}

/// Different numbers have different decimal digits.
pub proof fn lemma_decimal_injective(a: nat, b: nat)
    requires
        decimal(a) == decimal(b),
    ensures
        a == b,
    decreases a,
{
    lemma_decimal_len(a);
    lemma_decimal_len(b);
    if a >= 10 && b >= 10 {
        assert(decimal(a).drop_last() =~= decimal(a / 10));
        assert(decimal(b).drop_last() =~= decimal(b / 10));
        lemma_decimal_injective(a / 10, b / 10);
        assert(digit_char((a % 10) as int) == decimal(a).last());
        assert(digit_char((b % 10) as int) == decimal(b).last());
    } else if a < 10 && b < 10 {
        assert(digit_char(a as int) == decimal(a)[0]);
        assert(digit_char(b as int) == decimal(b)[0]);
    }
}

/// `parts` joined by `sep`.
pub open spec fn join_with(parts: Seq<Seq<char>>, sep: Seq<char>) -> Seq<char>
    decreases parts.len(),
{
    if parts.len() == 0 {
        Seq::empty()
    } else if parts.len() == 1 {
        parts[0]
    } else {
        join_with(parts.drop_last(), sep) + sep + parts.last()
    }
}

/// `v` in decimal, with a leading '-' when negative.
pub open spec fn signed_decimal(v: int) -> Seq<char> {
    if v < 0 {
        seq!['-'] + decimal((-v) as nat)
    } else {
        decimal(v as nat)
    }
}

/// An optional integer as Rust's debug formatting shows it: `None` or
/// `Some(v)`.
pub open spec fn debug_option_int(v: Option<i32>) -> Seq<char> {
    match v {
        None => "None"@,
        Some(x) => "Some("@ + signed_decimal(x as int) + ")"@,
    }
}

fn digit_str(d: u8) -> (s: &'static str)
    requires
        d < 10,
    ensures
        s@ == seq![digit_char(d as int)],
{
    match d {
        0 => {
            proof {
                reveal_strlit("0");
            }
            "0"
        },
        1 => {
            proof {
                reveal_strlit("1");
            }
            "1"
        },
        2 => {
            proof {
                reveal_strlit("2");
            }
            "2"
        },
        3 => {
            proof {
                reveal_strlit("3");
            }
            "3"
        },
        4 => {
            proof {
                reveal_strlit("4");
            }
            "4"
        },
        5 => {
            proof {
                reveal_strlit("5");
            }
            "5"
        },
        6 => {
            proof {
                reveal_strlit("6");
            }
            "6"
        },
        7 => {
            proof {
                reveal_strlit("7");
            }
            "7"
        },
        8 => {
            proof {
                reveal_strlit("8");
            }
            "8"
        },
        _ => {
            proof {
                reveal_strlit("9");
            }
            "9"
        },
    }
}

/// `n` written in decimal.
pub fn decimal_string(n: u128) -> (s: String)
    ensures
        s@ == decimal(n as nat),
    decreases n,
{
    if n < 10 {
        String::from_str(digit_str(n as u8))
    } else {
        let mut s = decimal_string(n / 10);
        s.append(digit_str((n % 10) as u8));
        s
    }
}

/// `v` written in decimal, with a leading '-' when negative.
pub fn signed_decimal_string(v: i32) -> (s: String)
    ensures
        s@ == signed_decimal(v as int),
{
    if v < 0 {
        let magnitude: u128 = (0i64 - v as i64) as u128;
        proof {
            reveal_strlit("-");
        }
        String::from_str("-").concat(decimal_string(magnitude).as_str())
    } else {
        decimal_string(v as u128)
    }
}

/// An optional integer as Rust's debug formatting shows it.
pub fn debug_option_i32(v: Option<i32>) -> (s: String)
    ensures
        s@ == debug_option_int(v),
{
    match v {
        None => String::from_str("None"),
        Some(x) => String::from_str("Some(").concat(signed_decimal_string(x).as_str()).concat(")"),
    }
}

} // verus!
