//! A prime field over native machine integers, reduced after every
//! operation. Moduli stay below `MAX_MODULUS` so that a product of two
//! reduced values fits in an `i64`.

use vstd::prelude::*;
use vstd::arithmetic::div_mod::{lemma_mod_add_multiples_vanish, lemma_small_mod, lemma_sub_mod_noop};

verus! {

/// Moduli are below this bound.
pub const MAX_MODULUS: u64 = 0x8000_0000;

/// A field of integers modulo a prime.
pub trait Field: Sized {
    /// The elements of the field.
    type U;

    /// The field of integers modulo `prime`.
    fn new(prime: u64) -> Self
        requires
            2 <= prime < MAX_MODULUS,
    ;

    /// The modulus.
    fn modulus(&self) -> u64;

    /// The element that `a` reduces to.
    fn from_u64(&self, a: u64) -> Self::U;

    /// The integer an element stands for.
    fn to_u64(&self, a: Self::U) -> u64;

    /// Sum of two elements.
    fn add(&self, a: Self::U, b: Self::U) -> Self::U;

    /// Difference of two elements.
    fn sub(&self, a: Self::U, b: Self::U) -> Self::U;

    /// Product of two elements.
    fn mul(&self, a: Self::U, b: Self::U) -> Self::U;
}

/// An element of a `NativeField`: an integer in `0 .. MAX_MODULUS`.
#[derive(Copy, Clone, Debug)]
pub struct Value(i64);

impl Value {
    #[verifier::type_invariant]
    spec fn in_range(self) -> bool {
        0 <= self.0 < MAX_MODULUS
    }
}

impl View for Value {
    type V = int;

    closed spec fn view(&self) -> int {
        self.0 as int
    }
}

/// Integers modulo a prime, held as `i64` and reduced after each operation.
pub struct NativeField(i64);

impl NativeField {
    #[verifier::type_invariant]
    spec fn modulus_in_range(self) -> bool {
        2 <= self.0 < MAX_MODULUS
    }

    /// The modulus.
    pub closed spec fn prime(&self) -> int {
        self.0 as int
    }
}

impl Field for NativeField {
    type U = Value;

    fn new(prime: u64) -> (r: NativeField)
        ensures
            r.prime() == prime,
    {
        NativeField(prime as i64)
    }

    fn modulus(&self) -> (r: u64)
        ensures
            r == self.prime(),
    {
        proof {
            use_type_invariant(self);
        }
        self.0 as u64
    }

    fn from_u64(&self, a: u64) -> (r: Value)
        ensures
            r@ == a as int % self.prime(),
    {
        proof {
            use_type_invariant(self);
        }
        Value((a % (self.0 as u64)) as i64)
    }

    fn to_u64(&self, a: Value) -> (r: u64)
        ensures
            r == a@,
    {
        proof {
            use_type_invariant(&a);
        }
        a.0 as u64
    }

    fn add(&self, a: Value, b: Value) -> (r: Value)
        ensures
            r@ == (a@ + b@) % self.prime(),
    {
        proof {
            use_type_invariant(self);
            use_type_invariant(&a);
            use_type_invariant(&b);
        }
        Value((a.0 + b.0) % self.0)
    }

    fn sub(&self, a: Value, b: Value) -> (r: Value)
        ensures
            r@ == (a@ - b@) % self.prime(),
    {
        proof {
            use_type_invariant(self);
            use_type_invariant(&a);
            use_type_invariant(&b);
        }
        let p = self.0;
        let x = a.0 % p;
        let y = b.0 % p;
        proof {
            lemma_sub_mod_noop(a.0 as int, b.0 as int, p as int);
        }
        if x >= y {
            proof {
                lemma_small_mod((x - y) as nat, p as nat);
            }
            Value(x - y)
        } else {
            proof {
                lemma_small_mod((x + (p - y)) as nat, p as nat);
                lemma_mod_add_multiples_vanish(x - y, p as int);
            }
            Value(x + (p - y))
        }
    }

    fn mul(&self, a: Value, b: Value) -> (r: Value)
        ensures
            r@ == (a@ * b@) % self.prime(),
    {
        proof {
            use_type_invariant(self);
            use_type_invariant(&a);
            use_type_invariant(&b);
            assert(0 <= a.0 * b.0 < MAX_MODULUS * MAX_MODULUS) by (nonlinear_arith)
                requires
                    0 <= a.0 < MAX_MODULUS,
                    0 <= b.0 < MAX_MODULUS,
            ;
        }
        Value((a.0 * b.0) % self.0)
    }
}

} // verus!
