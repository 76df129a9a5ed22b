//! Arithmetic in the byte-oriented Galois field GF(2^8).
//!
//! Field elements are bytes.  Addition is bitwise xor; multiplication is
//! carry-less polynomial multiplication reduced by the polynomial
//! x^8 + x^4 + x^3 + x^2 + 1 (`0x11d`), computed by the classic
//! shift-and-conditionally-reduce loop over the eight bits of the second
//! operand.  Inverses are found by exhaustive search, so nothing here rests
//! on unproven field theory: the specification of `gf_inv` is exactly "the
//! smallest byte whose product with the argument is 1, or 0 if there is none".

use vstd::prelude::*;

verus! {

/// Multiplication of a field element by x (i.e. by the byte 0x02):
/// shift left and, if the top bit was set, reduce by the field polynomial.
pub open spec fn spec_xtime(a: u8) -> u8 {
    if a >= 0x80 {
        (a << 1) ^ 0x1d
    } else {
        a << 1
    }
}

/// One step per bit of `b`, `k` steps remaining: the product accumulated
/// low bit first.  `gf_mul` instantiates this with k == 8.
pub open spec fn spec_gf_mul_rec(a: u8, b: u8, k: nat) -> u8
    decreases k,
{
    if k == 0 {
        0
    } else {
        let rest = spec_gf_mul_rec(spec_xtime(a), b >> 1, (k - 1) as nat);
        if b & 1 == 1 {
            rest ^ a
        } else {
            rest
        }
    }
}

/// The product of two field elements.
pub open spec fn gf_mul(a: u8, b: u8) -> u8 {
    spec_gf_mul_rec(a, b, 8)
}

/// The smallest byte `c` with `c >= lo` such that `gf_mul(b, c) == 1`,
/// or 0 if no byte at or above `lo` multiplies with `b` to 1.
pub open spec fn spec_gf_inv_search(b: u8, lo: int) -> u8
    decreases 256 - lo,
{
    if lo < 0 || lo >= 256 {
        0
    } else if gf_mul(b, lo as u8) == 1 {
        lo as u8
    } else {
        spec_gf_inv_search(b, lo + 1)
    }
}

/// The multiplicative inverse of `b`, or 0 when `b` has none (only the
/// case `b == 0`, though no proof here relies on that).
pub open spec fn gf_inv(b: u8) -> u8 {
    spec_gf_inv_search(b, 0)
}

pub fn xtime(a: u8) -> (r: u8)
    ensures
        r == spec_xtime(a),
{
    if a >= 0x80 {
        (a << 1u8) ^ 0x1d
    } else {
        a << 1u8
    }
}

fn gf_mul_steps(a: u8, b: u8, k: u8) -> (r: u8)
    ensures
        r == spec_gf_mul_rec(a, b, k as nat),
    decreases k,
{
    if k == 0 {
        0
    } else {
        let rest = gf_mul_steps(xtime(a), b >> 1u8, k - 1);
        if b & 1 == 1 {
            rest ^ a
        } else {
            rest
        }
    }
}

/// Multiply two field elements.
pub fn gf_mul_exec(a: u8, b: u8) -> (r: u8)
    ensures
        r == gf_mul(a, b),
{
    gf_mul_steps(a, b, 8)
}

/// Find the multiplicative inverse of `b` by exhaustive search.
pub fn gf_inv_exec(b: u8) -> (r: u8)
    ensures
        r == gf_inv(b),
{
    let mut c: u16 = 0;
    while c < 256
        invariant
            c <= 256,
            gf_inv(b) == spec_gf_inv_search(b, c as int),
        decreases 256 - c,
    {
        if gf_mul_exec(b, c as u8) == 1 {
            return c as u8;
        }
        c = c + 1;
    }
    0
}

} // verus!
