//! Integer square root and the vector magnitude used by the spatial stage.

use vstd::prelude::*;

verus! {

/// `r` is the floor of the square root of `n`.
pub open spec fn is_isqrt(n: int, r: int) -> bool {
    &&& 0 <= r
    &&& r * r <= n
    &&& n < (r + 1) * (r + 1)
}

/// Floor of the square root of `n`, by binary search on the answer.
pub fn isqrt64(n: u64) -> (r: u64)
    ensures
        is_isqrt(n as int, r as int),
        r < 0x1_0000_0000,
{
    let mut lo: u64 = 0;
    let mut hi: u64 = 0x1_0000_0000;
    while lo + 1 < hi
        invariant
            lo < hi <= 0x1_0000_0000,
            (lo as int) * (lo as int) <= n as int,
            (n as int) < (hi as int) * (hi as int),
        decreases hi - lo,
    {
        let mid: u64 = lo + (hi - lo) / 2;
        proof {
            assert((mid as int) * (mid as int) <= 0x1_0000_0000_0000_0000) by (nonlinear_arith)
                requires 0 <= mid as int <= 0x1_0000_0000;
        }
        if (mid as u128) * (mid as u128) <= n as u128 {
            lo = mid;
        } else {
            hi = mid;
        }
    }
    lo
}

/// The square of a 32-bit signed value is non-negative and fits in 62 bits.
proof fn lemma_square_bound(v: int)
    requires
        -0x8000_0000 <= v <= 0x7FFF_FFFF,
    ensures
        0 <= v * v <= 0x4000_0000_0000_0000,
{
    assert(0 <= v * v <= 0x4000_0000_0000_0000) by (nonlinear_arith)
        requires -0x8000_0000 <= v <= 0x7FFF_FFFF;
}

/// Magnitude (euclidean length, rounded down) of an integer vector.
///
/// The coordinates are fixed-point thousandths of a world unit, so the
/// result is in thousandths of a world unit as well.
pub fn vector_magnitude(x: i32, y: i32, z: i32) -> (d: u32)
    ensures
        is_isqrt((x as int) * (x as int) + (y as int) * (y as int) + (z as int) * (z as int), d as int),
{
    proof {
        lemma_square_bound(x as int);
        lemma_square_bound(y as int);
        lemma_square_bound(z as int);
    }
    let xx: u64 = ((x as i64) * (x as i64)) as u64;
    let yy: u64 = ((y as i64) * (y as i64)) as u64;
    let zz: u64 = ((z as i64) * (z as i64)) as u64;
    let n: u64 = xx + yy + zz;
    let r: u64 = isqrt64(n);
    proof {
        assert(r as int * (r as int) <= n as int);
        assert(r < 0x1_0000_0000);
        if r as int > u32::MAX as int {
            assert((r as int) * (r as int) > (u32::MAX as int) * (u32::MAX as int)) by (nonlinear_arith)
                requires r as int > u32::MAX as int;
        }
    }
    r as u32
}

} // verus!
