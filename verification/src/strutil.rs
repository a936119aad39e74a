//! Verified string building: decimal rendering of integers, currency
//! amounts, and the small link/header strings the engine hands out.

use vstd::prelude::*;
use vstd::string::StringExecFns;

verus! {

/// The character for one decimal digit.
pub open spec fn dec_digit_char(d: int) -> char {
    if d == 0 {
        '0'
    } else if d == 1 {
        '1'
    } else if d == 2 {
        '2'
    } else if d == 3 {
        '3'
    } else if d == 4 {
        '4'
    } else if d == 5 {
        '5'
    } else if d == 6 {
        '6'
    } else if d == 7 {
        '7'
    } else if d == 8 {
        '8'
    } else {
        '9'
    }
}

/// The usual decimal rendering of a non-negative integer, most
/// significant digit first, no leading zeros (except for zero itself).
pub open spec fn dec_str(n: int) -> Seq<char>
    decreases n,
{
    if n < 10 {
        seq![dec_digit_char(n)]
    } else {
        dec_str(n / 10).push(dec_digit_char(n % 10))
    }
}

/// One digit as a string slice.
fn digit_str(d: u8) -> (r: &'static str)
    requires
        d < 10,
    ensures
        r@ =~= seq![dec_digit_char(d as int)],
{
    let r = match d {
        0u8 => "0",
        1u8 => "1",
        2u8 => "2",
        3u8 => "3",
        4u8 => "4",
        5u8 => "5",
        6u8 => "6",
        7u8 => "7",
        8u8 => "8",
        _ => "9",
    };
    proof {
        reveal_strlit("0");
        reveal_strlit("1");
        reveal_strlit("2");
        reveal_strlit("3");
        reveal_strlit("4");
        reveal_strlit("5");
        reveal_strlit("6");
        reveal_strlit("7");
        reveal_strlit("8");
        reveal_strlit("9");
    }
    r
}

/// Renders `n` in decimal.
pub fn u64_to_string(n: u64) -> (r: String)
    ensures
        r@ == dec_str(n as int),
{
    // Low-order digits first.
    let mut digits: Vec<u8> = Vec::new();
    let mut m: u64 = n;
    loop
        invariant_except_break
            digits@.len() == 0 || m > 0,
        invariant
            forall|i: int| 0 <= i < digits@.len() ==> digits@[i] < 10,
            dec_str(n as int) =~= (if digits@.len() == 0 || m > 0 {
                dec_str(m as int)
            } else {
                Seq::<char>::empty()
            }) + Seq::new(digits@.len(), |i: int| dec_digit_char(
                digits@[digits@.len() - 1 - i] as int,
            )),
        ensures
            forall|i: int| 0 <= i < digits@.len() ==> digits@[i] < 10,
            dec_str(n as int) =~= Seq::new(digits@.len(), |i: int| dec_digit_char(
                digits@[digits@.len() - 1 - i] as int,
            )),
        decreases m, (if digits@.len() == 0 { 1int } else { 0int }),
    {
        let ghost prev = digits@;
        let ghost m_old = m as int;
        let d: u8 = (m % 10) as u8;
        digits.push(d);
        m = m / 10;
        proof {
            // One unrolling of dec_str at m_old.
            if m_old < 10 {
                assert(dec_str(m_old) =~= seq![dec_digit_char(m_old)]);
                assert(d as int == m_old);
            } else {
                assert(dec_str(m_old) =~= dec_str(m_old / 10).push(
                    dec_digit_char(m_old % 10),
                ));
            }
            assert(dec_str(m_old) =~= (if m > 0 {
                dec_str(m as int)
            } else {
                Seq::<char>::empty()
            }) + seq![dec_digit_char(d as int)]);
            // Pushing a low-order digit prepends its character to the
            // reversed reading of the digit vector.
            assert(Seq::new(digits@.len(), |i: int| dec_digit_char(
                digits@[digits@.len() - 1 - i] as int,
            )) =~= seq![dec_digit_char(d as int)] + Seq::new(prev.len(), |i: int| dec_digit_char(
                prev[prev.len() - 1 - i] as int,
            )));
            assert(dec_str(n as int) =~= (if m > 0 {
                dec_str(m as int)
            } else {
                Seq::<char>::empty()
            }) + Seq::new(digits@.len(), |i: int| dec_digit_char(
                digits@[digits@.len() - 1 - i] as int,
            )));
        }
        if m == 0 {
            break;
        }
    }
    let mut r = String::new();
    let mut i: usize = digits.len();
    while i > 0
        invariant
            i <= digits@.len(),
            forall|k: int| 0 <= k < digits@.len() ==> digits@[k] < 10,
            r@ =~= Seq::new((digits@.len() - i) as nat, |k: int| dec_digit_char(
                digits@[digits@.len() - 1 - k] as int,
            )),
        decreases i,
    {
        i = i - 1;
        let s = digit_str(digits[i]);
        r.append(s);
        proof {
            assert(r@ =~= Seq::new((digits@.len() - i) as nat, |k: int| dec_digit_char(
                digits@[digits@.len() - 1 - k] as int,
            )));
        }
    }
    proof {
        assert(r@ =~= dec_str(n as int));
    }
    r
}

/// A currency amount in cents rendered as dollars with two decimals,
/// the shape the payment provider's order endpoints expect.
pub open spec fn usd_str(cents: int) -> Seq<char> {
    dec_str(cents / 100) + seq!['.'] + seq![
        dec_digit_char((cents % 100) / 10),
        dec_digit_char(cents % 10),
    ]
}

/// Renders an amount of cents as a dollar string, two fraction digits.
pub fn format_usd(cents: u64) -> (r: String)
    ensures
        r@ == usd_str(cents as int),
{
    let mut r = u64_to_string(cents / 100);
    r.append(".");
    let tens: u8 = ((cents % 100) / 10) as u8;
    let ones: u8 = (cents % 10) as u8;
    r.append(digit_str(tens));
    r.append(digit_str(ones));
    proof {
        reveal_strlit(".");
        assert(r@ =~= usd_str(cents as int));
    }
    r
}

/// The link a verification email points at: the base URL with the token
/// appended as its query string.
pub fn create_verification_link(base_url: &str, token: &str) -> (r: String)
    ensures
        r@ == base_url@ + "?token="@ + token@,
{
    let mut r = base_url.to_owned();
    r.append("?token=");
    r.append(token);
    r
}

/// The value of a bearer authorization header for the given token.
pub fn auth_header_value(token: &str) -> (r: String)
    ensures
        r@ == "Bearer "@ + token@,
{
    let mut r = String::new();
    r.append("Bearer ");
    r.append(token);
    proof {
        assert(r@ =~= "Bearer "@ + token@);
    }
    r
}

/// String slice equality, decided over the views.
pub fn str_eq(a: &str, b: &str) -> (r: bool)
    ensures
        r == (a@ == b@),
{
    let sa = a.to_owned();
    let sb = b.to_owned();
    sa == sb
}

} // verus!
