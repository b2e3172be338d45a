//! Textual helpers: integer formatting in a given radix and character pushes.
use vstd::prelude::*;

verus! {

/// The character that stands for the digit `d` (lower-case letters above 9).
pub open spec fn digit_char(d: nat) -> char {
    if d < 10 {
        ((d + 48) as u8) as char
    } else {
        ((d - 10 + 97) as u8) as char
    }
}

/// The digits of `n` written in base `radix`, most significant first, with
/// no leading zeros (zero itself is written as a single `0`).
pub open spec fn radix_digits(n: nat, radix: nat) -> Seq<char>
    recommends
        2 <= radix <= 16,
    decreases n,
{
    if radix < 2 || n < radix {
        seq![digit_char(n)]
    } else {
        proof {
            assert(n / radix < n) by (nonlinear_arith)
                requires
                    radix >= 2,
                    n >= radix,
            ;
        }
        radix_digits(n / radix, radix).push(digit_char(n % radix))
    }
}

/// The decimal representation of `n`, as `format!("{}", n)` writes it.
pub open spec fn decimal(n: nat) -> Seq<char> {
    radix_digits(n, 10)
}

/// The lower-case hexadecimal representation of `n`, as `format!("{:x}", n)`
/// writes it.
pub open spec fn hex_lower(n: nat) -> Seq<char> {
    radix_digits(n, 16)
}

/// Calls `String::push`, which appends one character to the string.
#[verifier::external_body]
pub(crate) fn push_char(s: &mut String, c: char)
    ensures
        final(s)@ == old(s)@.push(c),
{
    s.push(c);
}

fn digit_to_char(d: u64) -> (c: char)
    requires
        d < 16,
    ensures
        c == digit_char(d as nat),
{
    if d < 10 {
        ((d + 48) as u8) as char
    } else {
        ((d - 10 + 97) as u8) as char
    }
}

/// Appends the digits of `n` in base `radix` to `s`.
pub fn append_radix(s: &mut String, n: u64, radix: u64)
    requires
        2 <= radix <= 16,
    ensures
        final(s)@ == old(s)@ + radix_digits(n as nat, radix as nat),
    decreases n,
{
    let ghost start = s@;
    if n >= radix {
        assert(n / radix < n) by (nonlinear_arith)
            requires
                radix >= 2,
                n >= radix,
        ;
        append_radix(s, n / radix, radix);
    }
    push_char(s, digit_to_char(n % radix));
    proof {
        if n >= radix {
            let head = radix_digits((n / radix) as nat, radix as nat);
            let d = digit_char((n % radix) as nat);
            assert(radix_digits(n as nat, radix as nat) == head.push(d));
            assert((start + head).push(d) =~= start + head.push(d));
        } else {
            assert(n % radix == n) by (nonlinear_arith)
                requires
                    n < radix,
            ;
            assert(radix_digits(n as nat, radix as nat) == seq![digit_char(n as nat)]);
            assert(start.push(digit_char(n as nat)) =~= start + seq![digit_char(n as nat)]);
        }
    }
}

/// The decimal representation of `n`.
pub fn to_decimal(n: u64) -> (s: String)
    ensures
        s@ == decimal(n as nat),
{
    let mut s = String::new();
    append_radix(&mut s, n, 10);
    s
}

/// The lower-case hexadecimal representation of `n`.
pub fn to_hex_lower(n: u64) -> (s: String)
    ensures
        s@ == hex_lower(n as nat),
{
    let mut s = String::new();
    append_radix(&mut s, n, 16);
    s
}

} // verus!
