//! Small verified text helpers: string equality, decimal formatting of
//! integers, and formatting of fixed-point hundredths (the scale this
//! library stores coordinates and readings in).

use vstd::prelude::*;

verus! {

/// Character-wise string equality.
pub fn str_eq(a: &str, b: &str) -> (r: bool)
    ensures
        r == (a@ == b@),
{
    let a_len = a.unicode_len();
    let b_len = b.unicode_len();
    if a_len != b_len {
        return false;
    }
    let mut i: usize = 0;
    while i < a_len
        invariant
            0 <= i <= a_len,
            a_len == a@.len() && a_len == b@.len(),
            forall|j: int| 0 <= j < i ==> a@[j] == b@[j],
        decreases a_len - i,
    {
        if a.get_char(i) != b.get_char(i) {
            return false;
        }
        i = i + 1;
    }
    proof {
        assert(a@ =~= b@);
    }
    true
}

/// The decimal digit character for `d`.
pub open spec fn spec_digit_char(d: nat) -> char {
    if d == 0 {
        '0'
    } else if d == 1 {
        '1'
    } else if d == 2 {
        '2'
    } else if d == 3 {
        '3'
    } else if d == 4 {
        '4'
    } else if d == 5 {
        '5'
    } else if d == 6 {
        '6'
    } else if d == 7 {
        '7'
    } else if d == 8 {
        '8'
    } else {
        '9'
    }
}

/// The usual decimal rendering of a natural number, no leading zeros.
pub open spec fn spec_decimal(n: nat) -> Seq<char>
    decreases n,
{
    if n < 10 {
        seq![spec_digit_char(n)]
    } else {
        spec_decimal(n / 10) + seq![spec_digit_char(n % 10)]
    }
}

/// The one-character string for a decimal digit.
fn digit_str(d: u64) -> (r: &'static str)
    requires
        d < 10,
    ensures
        r@ =~= seq![spec_digit_char(d as nat)],
{
    proof {
        reveal_strlit("0");
        reveal_strlit("1");
        reveal_strlit("2");
        reveal_strlit("3");
        reveal_strlit("4");
        reveal_strlit("5");
        reveal_strlit("6");
        reveal_strlit("7");
        reveal_strlit("8");
        reveal_strlit("9");
    }
    if d == 0 {
        "0"
    } else if d == 1 {
        "1"
    } else if d == 2 {
        "2"
    } else if d == 3 {
        "3"
    } else if d == 4 {
        "4"
    } else if d == 5 {
        "5"
    } else if d == 6 {
        "6"
    } else if d == 7 {
        "7"
    } else if d == 8 {
        "8"
    } else {
        "9"
    }
}

/// Render a natural number in decimal.
pub fn format_u64(n: u64) -> (r: String)
    ensures
        r@ == spec_decimal(n as nat),
    decreases n,
{
    if n < 10 {
        String::from_str(digit_str(n))
    } else {
        let high = format_u64(n / 10);
        high.concat(digit_str(n % 10))
    }
}

/// The usual decimal rendering of an integer: a minus sign for negative
/// values, then the digits.
pub open spec fn spec_signed_decimal(v: int) -> Seq<char> {
    if v < 0 {
        seq!['-'] + spec_decimal((-v) as nat)
    } else {
        spec_decimal(v as nat)
    }
}

/// Render a signed integer in decimal.
pub fn format_i64(v: i64) -> (r: String)
    requires
        v > i64::MIN,
    ensures
        r@ == spec_signed_decimal(v as int),
{
    proof {
        reveal_strlit("-");
    }
    if v < 0 {
        let digits = format_u64((-v) as u64);
        String::from_str("-").concat(digits.as_str())
    } else {
        format_u64(v as u64)
    }
}

/// The rendering of a value counted in hundredths, always with two decimal
/// places: sign, integer part, '.', two fraction digits.
pub open spec fn spec_centi(v: int) -> Seq<char> {
    let magnitude = if v < 0 {
        -v
    } else {
        v
    };
    let sign: Seq<char> = if v < 0 {
        seq!['-']
    } else {
        Seq::empty()
    };
    sign + spec_decimal((magnitude / 100) as nat) + seq![
        '.',
        spec_digit_char(((magnitude / 10) % 10) as nat),
        spec_digit_char((magnitude % 10) as nat),
    ]
}

/// Render a value counted in hundredths with exactly two decimal places,
/// as in `5252 -> "52.52"` and `-50 -> "-0.50"`.
pub fn format_centi(v: i64) -> (r: String)
    requires
        v > i64::MIN,
    ensures
        r@ == spec_centi(v as int),
{
    proof {
        reveal_strlit("-");
        reveal_strlit("");
        reveal_strlit(".");
    }
    let magnitude: u64 = if v < 0 {
        (-v) as u64
    } else {
        v as u64
    };
    let sign: &'static str = if v < 0 {
        "-"
    } else {
        ""
    };
    let whole = format_u64(magnitude / 100);
    let tenth = digit_str((magnitude / 10) % 10);
    let hundredth = digit_str(magnitude % 10);
    let r = String::from_str(sign).concat(whole.as_str()).concat(".").concat(tenth).concat(
        hundredth,
    );
    proof {
        assert(sign@ + spec_decimal((magnitude / 100) as nat) + "."@ + tenth@ + hundredth@
            =~= spec_centi(v as int));
    }
    r
}

} // verus!
