//! Text building blocks: a character-append wrapper over the standard
//! string and a verified decimal rendering of unsigned numbers.

use vstd::prelude::*;

verus! {

/// Relies on `String::push`: appends exactly the given character.
#[verifier::external_body]
pub(crate) fn string_push(s: &mut String, c: char)
    ensures
        final(s)@ == old(s)@ + seq![c],
{
    s.push(c);
}

/// The ten decimal digits.
pub const DEC_DIGITS: [char; 10] = ['0', '1', '2', '3', '4', '5', '6', '7', '8', '9'];

/// Decimal rendering of a number, most significant digit first, no sign and
/// no leading zeros (zero itself is "0").
pub open spec fn spec_dec(n: nat) -> Seq<char>
    decreases n,
{
    if n < 10 {
        seq![DEC_DIGITS@[n as int]]
    } else {
        spec_dec(n / 10) + seq![DEC_DIGITS@[n as int % 10]]
    }
}

/// Renders a number in decimal.
pub fn dec_u64(n: u64) -> (r: String)
    ensures
        r@ == spec_dec(n as nat),
    decreases n,
{
    let mut s = if n >= 10 {
        proof {
            assert(n / 10 < n) by (nonlinear_arith)
                requires n >= 10;
        }
        dec_u64(n / 10)
    } else {
        String::new()
    };
    let d = (n % 10) as usize;
    string_push(&mut s, DEC_DIGITS[d]);
    proof {
        if n < 10 {
            assert(n % 10 == n);
            assert(s@ =~= spec_dec(n as nat));
        } else {
            assert(s@ =~= spec_dec(n as nat));
        }
    }
    s
}

} // verus!
