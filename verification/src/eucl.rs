//! Euclidean division and remainder on machine integers.
//!
//! Spec-mode `/` and `%` are Euclidean, while Rust's operators truncate,
//! so the exec code below goes through the checked Euclidean operations
//! of std, whose results vstd states with the spec operators directly.

use vstd::prelude::*;

verus! {

/// Euclidean remainder of `a` by a positive modulus, as spec `%`.
pub fn rem_euclid_i64(a: i64, m: i64) -> (r: i64)
    requires
        m > 0,
    ensures
        r == a % m,
        0 <= r < m,
{
    match a.checked_rem_euclid(m) {
        Some(r) => r,
        None => {
            // m > 0 rules both failure cases out.
            proof {
                assert(false);
            }
            0
        },
    }
}

/// Euclidean quotient of `a` by a positive divisor, as spec `/`.
pub fn div_euclid_i64(a: i64, m: i64) -> (q: i64)
    requires
        m > 0,
    ensures
        q == a / m,
{
    match a.checked_div_euclid(m) {
        Some(q) => q,
        None => {
            proof {
                lemma_div_quotient_in_range(a as int, m as int, i64::MIN as int, i64::MAX as int);
                assert(false);
            }
            0
        },
    }
}

/// Euclidean remainder of `a` by a positive modulus, as spec `%`.
pub fn rem_euclid_i32(a: i32, m: i32) -> (r: i32)
    requires
        m > 0,
    ensures
        r == a % m,
        0 <= r < m,
{
    match a.checked_rem_euclid(m) {
        Some(r) => r,
        None => {
            proof {
                assert(false);
            }
            0
        },
    }
}

/// Euclidean quotient of `a` by a positive divisor, as spec `/`.
pub fn div_euclid_i32(a: i32, m: i32) -> (q: i32)
    requires
        m > 0,
    ensures
        q == a / m,
{
    match a.checked_div_euclid(m) {
        Some(q) => q,
        None => {
            proof {
                lemma_div_quotient_in_range(a as int, m as int, i32::MIN as int, i32::MAX as int);
                assert(false);
            }
            0
        },
    }
}

/// For a positive divisor the Euclidean quotient lies between the
/// dividend's bounds: it never leaves the machine range.
proof fn lemma_div_quotient_in_range(a: int, m: int, lo: int, hi: int)
    requires
        m >= 1,
        lo <= a <= hi,
        lo <= 0 <= hi,
    ensures
        lo <= a / m <= hi,
{
    let q = a / m;
    let r = a % m;
    vstd::arithmetic::div_mod::lemma_fundamental_div_mod(a, m);
    vstd::arithmetic::div_mod::lemma_mod_bound(a, m);
    assert(lo <= q <= hi) by (nonlinear_arith)
        requires
            a == m * q + r,
            0 <= r < m,
            1 <= m,
            lo <= a <= hi,
            lo <= 0 <= hi;
}

} // verus!
