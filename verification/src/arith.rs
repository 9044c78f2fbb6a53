use vstd::prelude::*;

verus! {

/// The quotient that Rust's `/` computes on signed integers: it rounds toward
/// zero.  Only meaningful for a positive divisor.
pub open spec fn trunc_div(a: int, b: int) -> int
    recommends
        b > 0,
{
    if a >= 0 {
        a / b
    } else {
        -((-a) / b)
    }
}

/// The value lies in the range of `i32`.
pub open spec fn fits_i32(x: int) -> bool {
    i32::MIN <= x <= i32::MAX
}

/// Tests whether a value computed in `i64` lies in the range of `i32`.
pub fn fits_in_i32(v: i64) -> (ok: bool)
    ensures
        ok == fits_i32(v as int),
{
    i32::MIN as i64 <= v && v <= i32::MAX as i64
}

/// The smaller of two integers (the first one when they are equal).
pub open spec fn min_int(a: int, b: int) -> int {
    if a <= b {
        a
    } else {
        b
    }
}

/// An affine expression `a + p * i` fits in `i32` for every `i` between `0`
/// and `k` as soon as it fits at both ends.
pub proof fn lemma_affine_fits(a: int, p: int, k: int, i: int)
    requires
        fits_i32(a),
        fits_i32(a + p * k),
        0 <= i <= k,
    ensures
        fits_i32(a + p * i),
{
    if p >= 0 {
        assert(0 <= p * i <= p * k) by (nonlinear_arith)
            requires
                p >= 0,
                0 <= i <= k,
        ;
    } else {
        assert(p * k <= p * i <= 0) by (nonlinear_arith)
            requires
                p < 0,
                0 <= i <= k,
        ;
    }
}

} // verus!
