use vstd::prelude::*;

verus! {

/// The decimal digit for `d`, with `0 <= d < 10`.
pub open spec fn digit(d: int) -> char {
    "0123456789"@[d]
}

/// The decimal numeral of a natural number, without leading zeros.
pub open spec fn nat_text(n: nat) -> Seq<char>
    decreases n,
{
    if n < 10 {
        seq![digit(n as int)]
    } else {
        nat_text(n / 10).push(digit((n % 10) as int))
    }
}

/// An integer as Rust's `Display` writes it: a minus sign for negatives,
/// then the decimal numeral of the magnitude.
pub open spec fn int_text(n: int) -> Seq<char> {
    if n < 0 {
        seq!['-'] + nat_text((-n) as nat)
    } else {
        nat_text(n as nat)
    }
}

/// A boolean as Rust's `Display` writes it.
pub open spec fn bool_text(b: bool) -> Seq<char> {
    if b {
        "true"@
    } else {
        "false"@
    }
}

/// Writes a boolean as `true` or `false`.
pub fn bool_to_text(b: bool) -> (r: String)
    ensures
        r@ == bool_text(b),
{
    if b {
        String::from_str("true")
    } else {
        String::from_str("false")
    }
}

/// Writes an integer in decimal, with a leading `-` when it is negative.
pub fn int_to_text(n: i32) -> (r: String)
    ensures
        r@ == int_text(n as int),
{
    let digits = "0123456789";
    proof {
        reveal_strlit("0123456789");
    }
    let mut m: u32 = if n < 0 {
        (0i64 - n as i64) as u32
    } else {
        n as u32
    };
    let ghost mag: nat = if n < 0 { (-n) as nat } else { n as nat };
    let d: usize = (m % 10) as usize;
    let mut result = String::from_str(digits.substring_char(d, d + 1));
    m = m / 10;
    assert(nat_text(mag) == nat_text(m as nat) + result@ || m == 0) by {
        if mag >= 10 {
            assert(nat_text(mag) == nat_text(m as nat).push(digit(d as int)));
        }
    }
    while m > 0
        invariant
            digits@ == "0123456789"@,
            digits@.len() == 10,
            m == 0 ==> nat_text(mag) == result@,
            m > 0 ==> nat_text(mag) == nat_text(m as nat) + result@,
        decreases m,
    {
        let d: usize = (m % 10) as usize;
        let mut s = String::from_str(digits.substring_char(d, d + 1));
        proof {
            if m >= 10 {
                assert(nat_text(m as nat) == nat_text((m / 10) as nat).push(digit(d as int)));
                assert(nat_text(mag) == nat_text((m / 10) as nat) + (s@ + result@));
            } else {
                assert(nat_text(m as nat) == s@);
            }
        }
        s.append(result.as_str());
        result = s;
        m = m / 10;
    }
    if n < 0 {
        let mut out = String::from_str("-");
        proof {
            reveal_strlit("-");
        }
        out.append(result.as_str());
        out
    } else {
        result
    }
}

} // verus!
