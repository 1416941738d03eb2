//! Sizes in bytes as shown to the user.

use vstd::prelude::*;
use vstd::string::StringExecFns;

verus! {

/// Bytes in a kibibyte.
pub const KB: u64 = 1024;

/// Bytes in a mebibyte.
pub const MB: u64 = 1_048_576;

/// Bytes in a gibibyte.
pub const GB: u64 = 1_073_741_824;

/// The largest integer up to which every integer is a 64-bit float.
pub const EXACT_FLOAT_LIMIT: u128 = 9_007_199_254_740_992;

/// The character of a decimal digit.
pub open spec fn digit_char(d: int) -> char {
    if d == 0 {
        '0'
    } else     if d == 1 {
        '1'
    } else     if d == 2 {
        '2'
    } else     if d == 3 {
        '3'
    } else     if d == 4 {
        '4'
    } else     if d == 5 {
        '5'
    } else     if d == 6 {
        '6'
    } else     if d == 7 {
        '7'
    } else     if d == 8 {
        '8'
    } else {
        '9'
    }
}

/// A number in decimal, without leading zeros.
pub open spec fn decimal(n: nat) -> Seq<char>
    decreases n,
{
    if n < 10 {
        seq![digit_char(n as int)]
    } else {
        decimal(n / 10).push(digit_char((n % 10) as int))
    }
}

/// `num / den` rounded to the nearest integer, halves to the even one.
pub open spec fn round_half_even(num: nat, den: nat) -> nat {
    let q = num / den;
    let r = num % den;
    if 2 * r > den || (2 * r == den && q % 2 == 1) {
        q + 1
    } else {
        q
    }
}

/// The spacing of 64-bit floats at a number, when called with the number
/// and 1: `p` doubled once for each halving that `x` needs to drop below the
/// exact limit.
pub open spec fn float_spacing(x: nat, p: nat) -> nat
    decreases x,
{
    if x < EXACT_FLOAT_LIMIT {
        p
    } else {
        float_spacing(x / 2, 2 * p)
    }
}

/// The 64-bit float nearest to an integer (halves to the even mantissa),
/// which is an integer itself.
pub open spec fn nearest_float(bytes: nat) -> nat {
    round_half_even(bytes, float_spacing(bytes, 1)) * float_spacing(bytes, 1)
}

/// A size as text: gibibytes with one decimal from 1 GiB on, whole
/// mebibytes from 1 MiB on, whole kibibytes from 1 KiB on, bytes below.
/// Rounding is to the nearest, halves to the even digit; gibibytes are
/// rounded from the size as a 64-bit float.
pub open spec fn size_text(bytes: u64) -> Seq<char> {
    if bytes >= GB {
        let tenths = round_half_even(nearest_float(bytes as nat) * 10, GB as nat);
        decimal(tenths / 10) + "."@ + decimal(tenths % 10) + " GB"@
    } else if bytes >= MB {
        decimal(round_half_even(bytes as nat, MB as nat)) + " MB"@
    } else if bytes >= KB {
        decimal(round_half_even(bytes as nat, KB as nat)) + " KB"@
    } else {
        decimal(bytes as nat) + " bytes"@
    }
}

/// The text of one decimal digit.
fn digit_text(d: u64) -> (s: &'static str)
    requires
        d < 10,
    ensures
        s@ == seq![digit_char(d as int)],
{
    match d {
        0 => {
            proof {
                reveal_strlit("0");
                assert("0"@ =~= seq![digit_char(0)]);
            }
            "0"
        },
        1 => {
            proof {
                reveal_strlit("1");
                assert("1"@ =~= seq![digit_char(1)]);
            }
            "1"
        },
        2 => {
            proof {
                reveal_strlit("2");
                assert("2"@ =~= seq![digit_char(2)]);
            }
            "2"
        },
        3 => {
            proof {
                reveal_strlit("3");
                assert("3"@ =~= seq![digit_char(3)]);
            }
            "3"
        },
        4 => {
            proof {
                reveal_strlit("4");
                assert("4"@ =~= seq![digit_char(4)]);
            }
            "4"
        },
        5 => {
            proof {
                reveal_strlit("5");
                assert("5"@ =~= seq![digit_char(5)]);
            }
            "5"
        },
        6 => {
            proof {
                reveal_strlit("6");
                assert("6"@ =~= seq![digit_char(6)]);
            }
            "6"
        },
        7 => {
            proof {
                reveal_strlit("7");
                assert("7"@ =~= seq![digit_char(7)]);
            }
            "7"
        },
        8 => {
            proof {
                reveal_strlit("8");
                assert("8"@ =~= seq![digit_char(8)]);
            }
            "8"
        },
        _ => {
            proof {
                reveal_strlit("9");
                assert("9"@ =~= seq![digit_char(9)]);
            }
            "9"
        },
    }
}

/// A number in decimal.
pub fn decimal_text(n: u64) -> (s: String)
    ensures
        s@ == decimal(n as nat),
    decreases n,
{
    if n < 10 {
        String::from_str(digit_text(n))
    } else {
        decimal_text(n / 10).concat(digit_text(n % 10))
    }
}

/// `num / den` rounded to the nearest integer, halves to the even one.
fn divide_rounding(num: u128, den: u128) -> (q: u128)
    requires
        den > 0,
        num / den < u128::MAX,
        den <= u128::MAX / 2,
    ensures
        q == round_half_even(num as nat, den as nat),
{
    let q: u128 = num / den;
    let r: u128 = num % den;
    if 2 * r > den || (2 * r == den && q % 2 == 1) {
        q + 1
    } else {
        q
    }
}

/// The 64-bit float nearest to `bytes`.
fn to_nearest_float(bytes: u64) -> (v: u128)
    ensures
        v == nearest_float(bytes as nat),
        v <= 2 * bytes,
{
    let mut x: u128 = bytes as u128;
    let mut p: u128 = 1;
    while x >= EXACT_FLOAT_LIMIT
        invariant
            p >= 1,
            p == 1 || x >= 1,
            p * x <= bytes,
            float_spacing(x as nat, p as nat) == float_spacing(bytes as nat, 1),
        decreases x,
    {
        assert((2 * p) * (x / 2) <= p * x) by (nonlinear_arith)
            requires
                p >= 1,
                x >= 0,
        ;
        assert(p <= bytes) by (nonlinear_arith)
            requires
                p * x <= bytes,
                p >= 1,
                x >= 1,
        ;
        x = x / 2;
        p = 2 * p;
    }
    assert(p <= bytes || p == 1) by (nonlinear_arith)
        requires
            p * x <= bytes,
            p >= 1,
            p == 1 || x >= 1,
    ;
    let whole: u128 = bytes as u128;
    let q: u128 = divide_rounding(whole, p);
    assert(q * p <= 2 * whole) by (nonlinear_arith)
        requires
            q <= whole / p + 1,
            p >= 1,
            (whole / p) * p <= whole,
            p <= whole || (p == 1 && q == whole),
    ;
    q * p
}

/// Show a size in bytes in the largest unit that it reaches.
pub fn format_size(bytes: u64) -> (text: String)
    ensures
        text@ == size_text(bytes),
{
    if bytes >= GB {
        let v: u128 = to_nearest_float(bytes);
        let tenths: u128 = divide_rounding(v * 10, GB as u128);
        let whole: u64 = (tenths / 10) as u64;
        let tenth: u64 = (tenths % 10) as u64;
        decimal_text(whole).concat(".").concat(decimal_text(tenth).as_str()).concat(" GB")
    } else if bytes >= MB {
        let n: u128 = divide_rounding(bytes as u128, MB as u128);
        decimal_text(n as u64).concat(" MB")
    } else if bytes >= KB {
        let n: u128 = divide_rounding(bytes as u128, KB as u128);
        decimal_text(n as u64).concat(" KB")
    } else {
        decimal_text(bytes).concat(" bytes")
    }
}

} // verus!
