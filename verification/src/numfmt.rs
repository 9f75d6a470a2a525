//! Exact decimal rendering of the fixed-point quantities the fleet carries.
//!
//! Battery percentages, temperatures and their averages are held as signed
//! integers counting thousandths of a unit ("milli" values). Rendering to
//! text — whole numbers, one-decimal values, zero-padded error codes — is
//! specified character by character and proved, so the strings embedded in
//! alerts and reports are pinned down exactly.

use vstd::prelude::*;
use vstd::string::StringExecFns;

verus! {

/// Largest magnitude, in thousandths, that a telemetry quantity or an
/// average may carry: ten billion whole units.
pub const MILLI_ABS_MAX: i64 = 10_000_000_000_000;

/// The character for a single decimal digit.
pub open spec fn digit_char(d: nat) -> char
    recommends
        d < 10,
{
    if d == 0 {
        '0'
    } else if d == 1 {
        '1'
    } else if d == 2 {
        '2'
    } else if d == 3 {
        '3'
    } else if d == 4 {
        '4'
    } else if d == 5 {
        '5'
    } else if d == 6 {
        '6'
    } else if d == 7 {
        '7'
    } else if d == 8 {
        '8'
    } else {
        '9'
    }
}

/// Decimal digits of a nonnegative integer, most significant first,
/// without leading zeros (zero itself is rendered "0").
pub open spec fn dec_digits(n: nat) -> Seq<char>
    decreases n,
{
    if n < 10 {
        seq![digit_char(n)]
    } else {
        dec_digits(n / 10).push(digit_char(n % 10))
    }
}

/// Decimal rendering of a signed integer: a leading '-' for negatives.
pub open spec fn int_dec(v: int) -> Seq<char> {
    if v < 0 {
        seq!['-'] + dec_digits((-v) as nat)
    } else {
        dec_digits(v as nat)
    }
}

/// `m / d` rounded to the nearest integer, halves rounded up.
pub open spec fn round_div(m: nat, d: nat) -> nat
    recommends
        d > 0,
{
    (m + d / 2) / d
}

/// `v / d` rounded to the nearest integer, halves rounded away from zero.
pub open spec fn round_half_away(v: int, d: int) -> int
    recommends
        d > 0,
{
    if v >= 0 {
        round_div(v as nat, d as nat) as int
    } else {
        -(round_div((-v) as nat, d as nat) as int)
    }
}

/// A milli value rendered with exactly one decimal place, rounded to the
/// nearest tenth (halves away from zero); a '-' only when the rounded
/// value is strictly negative.
pub open spec fn fixed1(milli: int) -> Seq<char> {
    let t = round_half_away(milli, 100);
    let m = if t < 0 {
        (-t) as nat
    } else {
        t as nat
    };
    let sign = if t < 0 {
        seq!['-']
    } else {
        Seq::<char>::empty()
    };
    sign + dec_digits(m / 10) + seq!['.'] + seq![digit_char(m % 10)]
}

/// Digits padded on the left with zeros to at least four characters.
pub open spec fn zero_pad4(ds: Seq<char>) -> Seq<char> {
    if ds.len() >= 4 {
        ds
    } else {
        Seq::new((4 - ds.len()) as nat, |i: int| '0') + ds
    }
}

/// An error code rendered as "E" followed by its digits, zero-padded to
/// four.
pub open spec fn code_token(c: nat) -> Seq<char> {
    seq!['E'] + zero_pad4(dec_digits(c))
}

/// The zero-padded tokens of a list of error codes.
pub open spec fn code_tokens(codes: Seq<u32>) -> Seq<Seq<char>> {
    codes.map_values(|c: u32| code_token(c as nat))
}

/// The items joined with the separator between consecutive items.
pub open spec fn join_sep(items: Seq<Seq<char>>, sep: Seq<char>) -> Seq<char>
    decreases items.len(),
{
    if items.len() == 0 {
        Seq::<char>::empty()
    } else if items.len() == 1 {
        items[0]
    } else {
        join_sep(items.drop_last(), sep) + sep + items.last()
    }
}

/// How many characters `dec_digits` produces, by magnitude.
pub proof fn lemma_dec_digits_len(n: nat)
    ensures
        dec_digits(n).len() >= 1,
        n < 10 ==> dec_digits(n).len() == 1,
        10 <= n < 100 ==> dec_digits(n).len() == 2,
        100 <= n < 1000 ==> dec_digits(n).len() == 3,
        1000 <= n ==> dec_digits(n).len() >= 4,
    decreases n,
{
    if n >= 10 {
        lemma_dec_digits_len(n / 10);
    }
}

fn digit_str(d: u64) -> (r: &'static str)
    requires
        d < 10,
    ensures
        r@ == seq![digit_char(d as nat)],
{
    proof {
        reveal_strlit("0");
        reveal_strlit("1");
        reveal_strlit("2");
        reveal_strlit("3");
        reveal_strlit("4");
        reveal_strlit("5");
        reveal_strlit("6");
        reveal_strlit("7");
        reveal_strlit("8");
        reveal_strlit("9");
    }
    if d == 0 {
        "0"
    } else if d == 1 {
        "1"
    } else if d == 2 {
        "2"
    } else if d == 3 {
        "3"
    } else if d == 4 {
        "4"
    } else if d == 5 {
        "5"
    } else if d == 6 {
        "6"
    } else if d == 7 {
        "7"
    } else if d == 8 {
        "8"
    } else {
        "9"
    }
}

/// Render an unsigned integer in decimal.
pub fn u64_dec(n: u64) -> (r: String)
    ensures
        r@ == dec_digits(n as nat),
    decreases n,
{
    if n < 10 {
        String::from_str(digit_str(n))
    } else {
        let mut s = u64_dec(n / 10);
        s.append(digit_str(n % 10));
        proof {
            assert(s@ =~= dec_digits(n as nat));
        }
        s
    }
}

/// Render a count in decimal.
pub fn usize_dec(n: usize) -> (r: String)
    ensures
        r@ == dec_digits(n as nat),
{
    u64_dec(n as u64)
}

/// Render a signed integer in decimal.
pub fn i64_dec(v: i64) -> (r: String)
    ensures
        r@ == int_dec(v as int),
{
    if v >= 0 {
        u64_dec(v as u64)
    } else {
        let mag: u64 = (-(v as i128)) as u64;
        let digits = u64_dec(mag);
        let mut s = String::from_str("-");
        s.append(digits.as_str());
        proof {
            reveal_strlit("-");
            assert(s@ =~= int_dec(v as int));
        }
        s
    }
}

/// Render a milli value with one decimal place.
pub fn fixed1_milli(v: i64) -> (r: String)
    requires
        -MILLI_ABS_MAX <= v <= MILLI_ABS_MAX,
    ensures
        r@ == fixed1(v as int),
{
    let neg = v < 0;
    let mag: u64 = if neg {
        (-(v as i128)) as u64
    } else {
        v as u64
    };
    let t: u64 = (mag + 50) / 100;
    let whole = u64_dec(t / 10);
    let frac = digit_str(t % 10);
    let mut s = String::new();
    if neg && t > 0 {
        s.append("-");
    }
    s.append(whole.as_str());
    s.append(".");
    s.append(frac);
    proof {
        reveal_strlit("-");
        reveal_strlit(".");
        assert(s@ =~= fixed1(v as int));
    }
    s
}

/// Render a milli value rounded to the nearest whole unit (halves away
/// from zero).
pub fn whole_milli(v: i64) -> (r: String)
    requires
        -MILLI_ABS_MAX <= v <= MILLI_ABS_MAX,
    ensures
        r@ == int_dec(round_half_away(v as int, 1000)),
{
    let neg = v < 0;
    let mag: u64 = if neg {
        (-(v as i128)) as u64
    } else {
        v as u64
    };
    let t: u64 = (mag + 500) / 1000;
    if neg && t > 0 {
        let digits = u64_dec(t);
        let mut s = String::from_str("-");
        s.append(digits.as_str());
        proof {
            reveal_strlit("-");
            assert(s@ =~= int_dec(round_half_away(v as int, 1000)));
        }
        s
    } else {
        let s = u64_dec(t);
        proof {
            assert(s@ =~= int_dec(round_half_away(v as int, 1000)));
        }
        s
    }
}

/// Render an error code as a zero-padded token.
pub fn code_token_u32(c: u32) -> (r: String)
    ensures
        r@ == code_token(c as nat),
{
    let digits = u64_dec(c as u64);
    let mut s = String::from_str("E");
    if c < 10 {
        s.append("000");
    } else if c < 100 {
        s.append("00");
    } else if c < 1000 {
        s.append("0");
    }
    s.append(digits.as_str());
    proof {
        reveal_strlit("E");
        reveal_strlit("000");
        reveal_strlit("00");
        reveal_strlit("0");
        lemma_dec_digits_len(c as nat);
        assert(s@ =~= code_token(c as nat));
    }
    s
}

/// Render a list of error codes as comma-separated zero-padded tokens.
pub fn error_codes_list(codes: &Vec<u32>) -> (r: String)
    ensures
        r@ == join_sep(code_tokens(codes@), ", "@),
{
    let ghost mapped = code_tokens(codes@);
    let mut s = String::new();
    let mut i: usize = 0;
    while i < codes.len()
        invariant
            i <= codes@.len(),
            mapped == code_tokens(codes@),
            s@ == join_sep(mapped.take(i as int), ", "@),
        decreases codes@.len() - i,
    {
        if i > 0 {
            s.append(", ");
        }
        let token = code_token_u32(codes[i]);
        s.append(token.as_str());
        proof {
            assert(mapped.take(i + 1 as int).drop_last() =~= mapped.take(i as int));
            assert(mapped.take(i + 1 as int).last() == mapped[i as int]);
            assert(s@ =~= join_sep(mapped.take(i + 1 as int), ", "@));
        }
        i = i + 1;
    }
    proof {
        assert(mapped.take(codes@.len() as int) =~= mapped);
    }
    s
}

} // verus!
