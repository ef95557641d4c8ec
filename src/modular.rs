//! Modular operations on scalar types.

use vstd::prelude::*;

verus! {

/// Modular multiplication.
pub trait ModMul<T = Self> {
    fn mul(self, other: T, module: Self) -> Self;
}

/// Modular addition.
pub trait ModAdd {
    fn add(self, other: Self, module: Self) -> Self;
}

/// Modular negation.
pub trait ModNeg {
    fn neg(self, module: Self) -> Self;
}

/// Modular multiplicative inverse.
pub trait ModInv {
    fn inv(self, module: Self) -> Self;
}

/// Modular multiplication with reduction.
pub trait MulReduce {
    fn mul_reduce(self, other: Self, module: Self, r_inverse: Self) -> Self;
}

} // verus!
