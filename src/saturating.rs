//! Arithmetic that stops at the bounds of the amount type instead of
//! overflowing.
use vstd::prelude::*;
use vstd::arithmetic::power::{lemma0_pow, lemma1_pow, lemma_pow_increases, pow};

verus! {

/// `x` brought into `[lo, hi]`.
pub open spec fn clamp(x: int, lo: int, hi: int) -> int {
    if x < lo {
        lo
    } else if x > hi {
        hi
    } else {
        x
    }
}

/// Saturating arithmetic: each operation returns the exact result when it is
/// representable, and otherwise the nearest bound of the type.
pub trait Saturating: Sized {
    /// The number a value stands for.
    spec fn value(self) -> int;

    /// The least representable number.
    spec fn lowest() -> int;

    /// The greatest representable number.
    spec fn highest() -> int;

    fn saturating_add(self, rhs: Self) -> (r: Self)
        ensures
            r.value() == clamp(self.value() + rhs.value(), Self::lowest(), Self::highest()),
    ;

    fn saturating_sub(self, rhs: Self) -> (r: Self)
        ensures
            r.value() == clamp(self.value() - rhs.value(), Self::lowest(), Self::highest()),
    ;

    fn saturating_mul(self, rhs: Self) -> (r: Self)
        ensures
            r.value() == clamp(self.value() * rhs.value(), Self::lowest(), Self::highest()),
    ;

    fn saturating_pow(self, exp: usize) -> (r: Self)
        ensures
            r.value() == clamp(pow(self.value(), exp as nat), Self::lowest(), Self::highest()),
    ;
}

impl Saturating for u128 {
    open spec fn value(self) -> int {
        self as int
    }

    open spec fn lowest() -> int {
        0
    }

    open spec fn highest() -> int {
        u128::MAX as int
    }

    fn saturating_add(self, rhs: u128) -> (r: u128) {
        match self.checked_add(rhs) {
            Some(v) => v,
            None => u128::MAX,
        }
    }

    fn saturating_sub(self, rhs: u128) -> (r: u128) {
        if self < rhs {
            0
        } else {
            self - rhs
        }
    }

    fn saturating_mul(self, rhs: u128) -> (r: u128) {
        proof {
            assert(self as int * rhs as int >= 0) by (nonlinear_arith);
        }
        match self.checked_mul(rhs) {
            Some(v) => v,
            None => u128::MAX,
        }
    }

    fn saturating_pow(self, exp: usize) -> (r: u128) {
        if self == 0 {
            proof {
                reveal(pow);
                if exp > 0 {
                    lemma0_pow(exp as nat);
                }
            }
            if exp == 0 {
                1
            } else {
                0
            }
        } else if self == 1 {
            proof {
                lemma1_pow(exp as nat);
            }
            1
        } else {
            let mut acc: u128 = 1;
            let mut i: usize = 0;
            proof {
                reveal(pow);
            }
            while i < exp
                invariant
                    2 <= self,
                    i <= exp,
                    acc as int == pow(self as int, i as nat),
                decreases exp - i,
            {
                proof {
                    reveal(pow);
                    assert(pow(self as int, (i + 1) as nat) == self * pow(self as int, i as nat));
                }
                match acc.checked_mul(self) {
                    Some(v) => {
                        acc = v;
                        i = i + 1;
                    },
                    None => {
                        proof {
                            lemma_pow_increases(self as nat, (i + 1) as nat, exp as nat);
                        }
                        return u128::MAX;
                    },
                }
            }
            proof {
                assert(pow(self as int, exp as nat) >= 0) by {
                    lemma_pow_increases(self as nat, 0, exp as nat);
                }
            }
            acc
        }
    }
}

} // verus!
