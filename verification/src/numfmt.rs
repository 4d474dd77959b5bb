//! Decimal rendering of the kernel's execution counter, so the `count`
//! update can carry it as text.

use vstd::prelude::*;

verus! {

/// The digit character of `d` (for `d < 10`).
pub open spec fn spec_digit(d: nat) -> char {
    ((48 + d) as u8) as char
}

/// The decimal digits of `n`, most significant first, no leading zeros
/// (the single digit `0` for zero).
pub open spec fn spec_u64_digits(n: nat) -> Seq<char>
    decreases n,
{
    if n < 10 {
        seq![spec_digit(n)]
    } else {
        spec_u64_digits(n / 10).push(spec_digit(n % 10))
    }
}

/// The decimal rendering of `n`, with a leading minus sign when
/// negative.
pub open spec fn spec_i64_string(n: int) -> Seq<char> {
    if n < 0 {
        seq!['-'] + spec_u64_digits((-n) as nat)
    } else {
        spec_u64_digits(n as nat)
    }
}

/// The characters of a sequence of ASCII bytes.
pub open spec fn spec_chars_of(bytes: Seq<u8>) -> Seq<char> {
    bytes.map_values(|b: u8| b as char)
}

/// Relies on `String::from_utf8`: bytes below 128 are valid UTF-8 and
/// decode to the string of exactly those characters.
#[verifier::external_body]
fn ascii_bytes_to_string(v: Vec<u8>) -> (r: String)
    requires
        forall|i: int| 0 <= i < v@.len() ==> v@[i] < 128,
    ensures
        r@ == spec_chars_of(v@),
{
    String::from_utf8(v).unwrap_or_default()
}

/// Renders `n` in decimal.
pub fn u64_to_string(n: u64) -> (r: String)
    ensures
        r@ == spec_u64_digits(n as nat),
{
    let mut digits: Vec<u8> = Vec::new();
    let mut m: u64 = n;
    while m >= 10
        invariant
            spec_u64_digits(n as nat) == spec_u64_digits(m as nat) + spec_chars_of(digits@),
            forall|i: int| 0 <= i < digits@.len() ==> 48 <= #[trigger] digits@[i] < 58,
        decreases m,
    {
        let ghost m0 = m as nat;
        let d: u8 = (m % 10) as u8 + 48;
        let ghost prev = digits@;
        digits.insert(0, d);
        m = m / 10;
        proof {
            assert(digits@ =~= seq![d] + prev);
            assert(spec_chars_of(digits@) =~= seq![d as char] + spec_chars_of(prev));
            assert(d as char == spec_digit(m0 % 10));
            assert(spec_u64_digits(m0) == spec_u64_digits(m0 / 10).push(spec_digit(m0 % 10)));
            assert(m as nat == m0 / 10);
            assert(spec_u64_digits(n as nat) =~= spec_u64_digits(m as nat) + spec_chars_of(digits@));
        }
    }
    let d: u8 = m as u8 + 48;
    let ghost prev = digits@;
    digits.insert(0, d);
    proof {
        assert(digits@ =~= seq![d] + prev);
        assert(d as char == spec_digit(m as nat));
        assert(spec_u64_digits(m as nat) == seq![spec_digit(m as nat)]);
        assert(spec_chars_of(digits@) =~= seq![d as char] + spec_chars_of(prev));
        assert(spec_chars_of(digits@) =~= spec_u64_digits(n as nat));
    }
    ascii_bytes_to_string(digits)
}

/// Renders `n` in decimal, with a leading minus sign when negative.
pub fn i64_to_string(n: i64) -> (r: String)
    ensures
        r@ == spec_i64_string(n as int),
{
    if n >= 0 {
        u64_to_string(n as u64)
    } else {
        let mag: u64 = (-(n as i128)) as u64;
        let body = u64_to_string(mag);
        let mut r: String = "-".to_owned();
        r.append(body.as_str());
        proof {
            reveal_strlit("-");
            assert(r@ =~= seq!['-'] + spec_u64_digits(mag as nat));
        }
        r
    }
}

} // verus!
