//! The numeric scalar interface the transform stack is generic over.
//!
//! A scalar supplies zero, one, addition, multiplication and division, each
//! with a specification-level counterpart, together with the handful of
//! algebraic identities the matrix lemmas rely on. A floating-point binding
//! (living outside the verified library, since the verifier does not model
//! floating point) satisfies the laws up to IEEE equality on finite values;
//! the saturating `i64` scalar below satisfies them exactly and is proved to.

use vstd::prelude::*;

verus! {

/// A minimal numeric capability interface: zero, one, add, mul, div.
///
/// Each executable operation is pinned to its specification-level twin, and
/// the `law_*` proof obligations state the identities of zero and one that
/// the transform lemmas depend on. Nothing else (no associativity or
/// distributivity) is demanded, deliberately: rounded arithmetic does not
/// obey those laws, and no lemma here leans on them.
pub trait Scalar: Sized + Copy {
    /// The additive identity, as a specification value.
    spec fn zero_spec() -> Self;

    /// The multiplicative identity, as a specification value.
    spec fn one_spec() -> Self;

    /// What `add` returns.
    spec fn add_spec(self, rhs: Self) -> Self;

    /// What `mul` returns.
    spec fn mul_spec(self, rhs: Self) -> Self;

    /// What `div` returns.
    spec fn div_spec(self, rhs: Self) -> Self;

    /// The additive identity.
    fn zero() -> (r: Self)
        ensures
            r == Self::zero_spec(),
    ;

    /// The multiplicative identity.
    fn one() -> (r: Self)
        ensures
            r == Self::one_spec(),
    ;

    /// Addition. Total: a scalar type chooses its own out-of-range behavior.
    fn add(self, rhs: Self) -> (r: Self)
        ensures
            r == self.add_spec(rhs),
    ;

    /// Multiplication. Total, as `add` is.
    fn mul(self, rhs: Self) -> (r: Self)
        ensures
            r == self.mul_spec(rhs),
    ;

    /// Division. Total: a scalar type chooses what a zero divisor yields
    /// (IEEE floats produce an infinity or NaN; the `i64` scalar returns 0).
    fn div(self, rhs: Self) -> (r: Self)
        ensures
            r == self.div_spec(rhs),
    ;

    /// Zero is the additive identity, on either side.
    proof fn law_add_zero(x: Self)
        ensures
            x.add_spec(Self::zero_spec()) == x,
            Self::zero_spec().add_spec(x) == x,
    ;

    /// One is the multiplicative identity, on either side.
    proof fn law_mul_one(x: Self)
        ensures
            x.mul_spec(Self::one_spec()) == x,
            Self::one_spec().mul_spec(x) == x,
    ;

    /// Zero annihilates under multiplication, on either side.
    proof fn law_mul_zero(x: Self)
        ensures
            x.mul_spec(Self::zero_spec()) == Self::zero_spec(),
            Self::zero_spec().mul_spec(x) == Self::zero_spec(),
    ;

    /// Dividing by one changes nothing.
    proof fn law_div_one(x: Self)
        ensures
            x.div_spec(Self::one_spec()) == x,
    ;
}

/// `i64` as a scalar, with saturating addition and multiplication and a
/// total division (zero divisor yields 0, an out-of-range quotient
/// saturates). An exact-arithmetic scalar: every `Scalar` law is proved.
impl Scalar for i64 {
    open spec fn zero_spec() -> i64 {
        0i64
    }

    open spec fn one_spec() -> i64 {
        1i64
    }

    open spec fn add_spec(self, rhs: i64) -> i64 {
        if self + rhs > i64::MAX {
            i64::MAX
        } else if self + rhs < i64::MIN {
            i64::MIN
        } else {
            (self + rhs) as i64
        }
    }

    open spec fn mul_spec(self, rhs: i64) -> i64 {
        if self * rhs > i64::MAX {
            i64::MAX
        } else if self * rhs < i64::MIN {
            i64::MIN
        } else {
            (self * rhs) as i64
        }
    }

    open spec fn div_spec(self, rhs: i64) -> i64 {
        if rhs == 0 {
            0i64
        } else {
            let q: int = truncated_quotient(self as int, rhs as int);
            if q > i64::MAX {
                i64::MAX
            } else if q < i64::MIN {
                i64::MIN
            } else {
                q as i64
            }
        }
    }

    fn zero() -> (r: i64) {
        0i64
    }

    fn one() -> (r: i64) {
        1i64
    }

    fn add(self, rhs: i64) -> (r: i64) {
        match self.checked_add(rhs) {
            Some(v) => v,
            None => {
                if self > 0 {
                    i64::MAX
                } else {
                    i64::MIN
                }
            },
        }
    }

    fn mul(self, rhs: i64) -> (r: i64) {
        match self.checked_mul(rhs) {
            Some(v) => v,
            None => {
                proof {
                    lemma_overflowing_product_sign(self as int, rhs as int);
                }
                if (self > 0) == (rhs > 0) {
                    i64::MAX
                } else {
                    i64::MIN
                }
            },
        }
    }

    fn div(self, rhs: i64) -> (r: i64) {
        match self.checked_div(rhs) {
            Some(v) => v,
            None => {
                if rhs == 0 {
                    0i64
                } else {
                    // The one remaining overflow: i64::MIN / -1.
                    i64::MAX
                }
            },
        }
    }

    proof fn law_add_zero(x: i64) {
    }

    proof fn law_mul_one(x: i64) {
    }

    proof fn law_mul_zero(x: i64) {
    }

    proof fn law_div_one(x: i64) {
        assert(truncated_quotient(x as int, 1int) == x) by {
            if x > 0 {
                assert(x as int / 1int == x) by (nonlinear_arith);
            } else if x < 0 {
                assert((x as int * -1) / 1int == x as int * -1) by (nonlinear_arith);
            }
        }
    }
}

/// Integer division with truncation toward zero, as Rust's `/` rounds,
/// stated over mathematical integers (which divide euclideanly).
pub open spec fn truncated_quotient(x: int, d: int) -> int
    recommends
        d != 0,
{
    if x == 0 {
        0int
    } else if x > 0 && d > 0 {
        x / d
    } else if x < 0 && d < 0 {
        (x * -1) / (d * -1)
    } else if x < 0 {
        ((x * -1) / d) * -1
    } else {
        (x / (d * -1)) * -1
    }
}

/// A product of two `i64`s that falls outside `i64`'s range is positive
/// exactly when its factors share a sign.
proof fn lemma_overflowing_product_sign(x: int, y: int)
    requires
        -0x8000_0000_0000_0000 <= x < 0x8000_0000_0000_0000,
        -0x8000_0000_0000_0000 <= y < 0x8000_0000_0000_0000,
        x * y > 0x7fff_ffff_ffff_ffff || x * y < -0x8000_0000_0000_0000,
    ensures
        x * y > 0x7fff_ffff_ffff_ffff <==> ((x > 0) <==> (y > 0)),
{
    if x > 0 && y > 0 {
        assert(x * y > 0) by (nonlinear_arith)
            requires
                x > 0 && y > 0,
        ;
    } else if x < 0 && y < 0 {
        assert(x * y > 0) by (nonlinear_arith)
            requires
                x < 0 && y < 0,
        ;
    } else if x > 0 && y < 0 {
        assert(x * y < 0) by (nonlinear_arith)
            requires
                x > 0 && y < 0,
        ;
    } else if x < 0 && y > 0 {
        assert(x * y < 0) by (nonlinear_arith)
            requires
                x < 0 && y > 0,
        ;
    } else {
        assert(x * y == 0) by (nonlinear_arith)
            requires
                x == 0 || y == 0,
        ;
    }
}

} // verus!
