//! Arithmetic wider than 128 bits, for the intermediate products of the
//! payroll. A wide value is held as three little-endian 64-bit limbs, the
//! layout of spl-math's `U192`.
use vstd::prelude::*;
use spl_math::uint::U192;

verus! {

/// 2^64.
pub const LIMB_BASE: u128 = 0x1_0000_0000_0000_0000;

/// The number that three little-endian limbs stand for.
pub open spec fn limbs_value(a: [u64; 3]) -> nat {
    (a[0] as int + a[1] as int * 0x1_0000_0000_0000_0000int
        + a[2] as int * 0x1_0000_0000_0000_0000_0000_0000_0000_0000int) as nat
}

/// 2^192, the first value that three limbs cannot hold.
pub open spec fn wide_bound() -> nat {
    0x1_0000_0000_0000_0000_0000_0000_0000_0000_0000_0000_0000_0000nat
}

/// Relies on spl-math's `U192::checked_mul`: the product when it is below
/// 2^192, and `None` otherwise.
#[verifier::external_body]
fn u192_checked_mul(a: [u64; 3], b: [u64; 3]) -> (r: Option<[u64; 3]>)
    ensures
        match r {
            Some(p) => limbs_value(p) == limbs_value(a) * limbs_value(b),
            None => limbs_value(a) * limbs_value(b) >= wide_bound(),
        },
{
    U192(a).checked_mul(U192(b)).map(|p| p.0)
}

/// Relies on spl-math's `U192::checked_div`: the quotient rounded down,
/// and `None` for a zero divisor.
#[verifier::external_body]
fn u192_checked_div(a: [u64; 3], b: [u64; 3]) -> (r: Option<[u64; 3]>)
    ensures
        match r {
            Some(q) => limbs_value(b) != 0 && limbs_value(q) == limbs_value(a) / limbs_value(b),
            None => limbs_value(b) == 0,
        },
{
    U192(a).checked_div(U192(b)).map(|q| q.0)
}

/// Relies on spl-math's `U192::checked_add`: the sum when it is below
/// 2^192, and `None` otherwise.
#[verifier::external_body]
fn u192_checked_add(a: [u64; 3], b: [u64; 3]) -> (r: Option<[u64; 3]>)
    ensures
        match r {
            Some(s) => limbs_value(s) == limbs_value(a) + limbs_value(b),
            None => limbs_value(a) + limbs_value(b) >= wide_bound(),
        },
{
    U192(a).checked_add(U192(b)).map(|s| s.0)
}

/// The limbs of a 128-bit value.
pub fn limbs_from_u128(x: u128) -> (r: [u64; 3])
    ensures
        limbs_value(r) == x,
{
    let lo = (x % LIMB_BASE) as u64;
    let hi = (x / LIMB_BASE) as u64;
    let r = [lo, hi, 0u64];
    assert(r[0] == lo && r[1] == hi && r[2] == 0);
    r
}

/// The limbs of a 64-bit value.
pub fn limbs_from_u64(x: u64) -> (r: [u64; 3])
    ensures
        limbs_value(r) == x,
{
    let r = [x, 0u64, 0u64];
    assert(r[0] == x && r[1] == 0 && r[2] == 0);
    r
}

/// The 128-bit value of three limbs, or `None` where it is 2^128 or more.
pub fn limbs_to_u128(a: [u64; 3]) -> (r: Option<u128>)
    ensures
        match r {
            Some(v) => limbs_value(a) == v,
            None => limbs_value(a) > u128::MAX,
        },
{
    if a[2] != 0 {
        None
    } else {
        Some(a[1] as u128 * LIMB_BASE + a[0] as u128)
    }
}

/// `a * b / c` rounded down, computed without overflow, or `None` where
/// `c` is zero or the quotient does not fit in 64 bits.
pub fn mul_div_u64(a: u64, b: u64, c: u64) -> (r: Option<u64>)
    ensures
        match r {
            Some(q) => c != 0 && q == (a as int * b as int) / c as int,
            None => c == 0 || (a as int * b as int) / c as int > u64::MAX,
        },
{
    if c == 0 {
        return None;
    }
    assert((a as int) * (b as int) <= u64::MAX as int * u64::MAX as int) by (nonlinear_arith);
    let p: u128 = (a as u128) * (b as u128);
    let q: u128 = p / (c as u128);
    if q > u64::MAX as u128 {
        None
    } else {
        Some(q as u64)
    }
}

/// `a * b` for values that fit in three limbs.
pub fn wide_mul(a: [u64; 3], b: [u64; 3]) -> (r: [u64; 3])
    requires
        limbs_value(a) * limbs_value(b) < wide_bound(),
    ensures
        limbs_value(r) == limbs_value(a) * limbs_value(b),
{
    match u192_checked_mul(a, b) {
        Some(p) => p,
        None => a,
    }
}

/// `a / b` rounded down, for a divisor that is not zero.
pub fn wide_div(a: [u64; 3], b: [u64; 3]) -> (r: [u64; 3])
    requires
        limbs_value(b) != 0,
    ensures
        limbs_value(r) == limbs_value(a) / limbs_value(b),
{
    match u192_checked_div(a, b) {
        Some(q) => q,
        None => a,
    }
}

/// `a + b` for values whose sum fits in three limbs.
pub fn wide_add(a: [u64; 3], b: [u64; 3]) -> (r: [u64; 3])
    requires
        limbs_value(a) + limbs_value(b) < wide_bound(),
    ensures
        limbs_value(r) == limbs_value(a) + limbs_value(b),
{
    match u192_checked_add(a, b) {
        Some(s) => s,
        None => a,
    }
}

} // verus!

verus! {

/// Relies on num-traits' `ToPrimitive::to_u64` for `u128`: the same value
/// where it fits in 64 bits, `None` otherwise.
#[verifier::external_body]
pub(crate) fn u128_to_u64(x: u128) -> (r: Option<u64>)
    ensures
        x <= u64::MAX ==> r == Some(x as u64),
        x > u64::MAX ==> r is None,
{
    num_traits::ToPrimitive::to_u64(&x)
}

} // verus!
