//! Capability traits for the element types of vectors and matrices.
//!
//! A scalar type describes its own arithmetic twice: once as executable
//! methods (`add`, `mul`, ...) and once as specification functions
//! (`add_spec`, `mul_spec`, ...) that the executable methods are proved to
//! match.  A scalar whose specification-level arithmetic moreover forms a
//! commutative ring proves that by implementing `RingLaws`, and the
//! algebraic lemmas of the library then apply to it; `u64` under wrapping
//! arithmetic is the ring of integers modulo `2^64` and implements
//! everything here.

use vstd::prelude::*;

verus! {

/// Value semantics required of every vector/matrix element.
pub trait Scalar: Sized + Copy {

}

/// Types with an additive identity.
pub trait Zero: Scalar {
    /// The additive identity, at the specification level.
    open spec fn zero_spec() -> Self {
        vstd::pervasive::arbitrary()
    }

    /// The additive identity.
    fn zero() -> (r: Self)
        ensures
            r == Self::zero_spec(),
    ;
}

/// Types with a multiplicative identity.
pub trait One: Scalar {
    /// The multiplicative identity, at the specification level.
    open spec fn one_spec() -> Self {
        vstd::pervasive::arbitrary()
    }

    /// The multiplicative identity.
    fn one() -> (r: Self)
        ensures
            r == Self::one_spec(),
    ;
}

/// Addition and subtraction.
pub trait Additive: Zero {
    open spec fn add_spec(self, other: Self) -> Self {
        vstd::pervasive::arbitrary()
    }

    open spec fn sub_spec(self, other: Self) -> Self {
        vstd::pervasive::arbitrary()
    }

    fn add(self, other: Self) -> (r: Self)
        ensures
            r == self.add_spec(other),
    ;

    fn sub(self, other: Self) -> (r: Self)
        ensures
            r == self.sub_spec(other),
    ;
}

/// Multiplication, division and negation.
pub trait Multiplicative: One {
    open spec fn mul_spec(self, other: Self) -> Self {
        vstd::pervasive::arbitrary()
    }

    open spec fn div_spec(self, other: Self) -> Self {
        vstd::pervasive::arbitrary()
    }

    open spec fn neg_spec(self) -> Self {
        vstd::pervasive::arbitrary()
    }

    fn mul(self, other: Self) -> (r: Self)
        ensures
            r == self.mul_spec(other),
    ;

    fn div(self, other: Self) -> (r: Self)
        ensures
            r == self.div_spec(other),
    ;

    fn neg(self) -> (r: Self)
        ensures
            r == self.neg_spec(),
    ;
}

/// The full scalar capability set of the vector and matrix operations
/// that need no square root: arithmetic together with an executable zero
/// test and an ordering test.
pub trait Numeric: Scalar + Additive + Multiplicative {
    open spec fn lt_spec(self, other: Self) -> bool {
        vstd::pervasive::arbitrary()
    }

    /// Strict order test, used by the adaptive integrator's error control.
    fn lt(self, other: Self) -> (r: bool)
        ensures
            r == self.lt_spec(other),
    ;

    /// Exact equality with the additive identity, used by matrix inversion
    /// to detect a singular matrix.
    fn eq_zero(self) -> (r: bool)
        ensures
            r == (self == Self::zero_spec()),
    ;
}

/// A scalar whose specification-level arithmetic forms a commutative ring
/// with the stated identities.  An implementation must prove every law;
/// the algebraic lemmas of the library hold for exactly these scalars.  A
/// type whose arithmetic satisfies the laws only approximately (floating
/// point, whose addition does not associate) implements `Numeric` but not
/// this trait.
pub trait RingLaws: Numeric {
    /// Addition commutes.
    proof fn law_add_comm(a: Self, b: Self)
        ensures
            a.add_spec(b) == b.add_spec(a),
    ;

    /// Addition associates.
    proof fn law_add_assoc(a: Self, b: Self, c: Self)
        ensures
            a.add_spec(b).add_spec(c) == a.add_spec(b.add_spec(c)),
    ;

    /// `zero` is the additive identity.
    proof fn law_add_zero(a: Self)
        ensures
            a.add_spec(Self::zero_spec()) == a,
            Self::zero_spec().add_spec(a) == a,
    ;

    /// Multiplication commutes.
    proof fn law_mul_comm(a: Self, b: Self)
        ensures
            a.mul_spec(b) == b.mul_spec(a),
    ;

    /// Multiplication associates.
    proof fn law_mul_assoc(a: Self, b: Self, c: Self)
        ensures
            a.mul_spec(b).mul_spec(c) == a.mul_spec(b.mul_spec(c)),
    ;

    /// `one` is the multiplicative identity.
    proof fn law_mul_one(a: Self)
        ensures
            a.mul_spec(Self::one_spec()) == a,
            Self::one_spec().mul_spec(a) == a,
    ;

    /// `zero` annihilates under multiplication.
    proof fn law_mul_zero(a: Self)
        ensures
            a.mul_spec(Self::zero_spec()) == Self::zero_spec(),
            Self::zero_spec().mul_spec(a) == Self::zero_spec(),
    ;

    /// Multiplication distributes over addition.
    proof fn law_mul_distrib(a: Self, b: Self, c: Self)
        ensures
            a.mul_spec(b.add_spec(c)) == a.mul_spec(b).add_spec(a.mul_spec(c)),
            a.add_spec(b).mul_spec(c) == a.mul_spec(c).add_spec(b.mul_spec(c)),
    ;

    /// Multiplication distributes over subtraction.
    proof fn law_mul_distrib_sub(a: Self, b: Self, c: Self)
        ensures
            a.mul_spec(b.sub_spec(c)) == a.mul_spec(b).sub_spec(a.mul_spec(c)),
            a.sub_spec(b).mul_spec(c) == a.mul_spec(c).sub_spec(b.mul_spec(c)),
    ;

    /// Subtraction is the addition of a negation, and negation flips a
    /// difference.
    proof fn law_sub_neg(a: Self, b: Self)
        ensures
            a.sub_spec(b) == a.add_spec(b.neg_spec()),
            a.sub_spec(b).neg_spec() == b.sub_spec(a),
            a.sub_spec(Self::zero_spec()) == a,
    ;
}

/// Scalars that additionally support a square root, such as floating-point
/// types supplied by a caller.  The square root carries no algebraic laws:
/// the library states results in terms of `sqrt_spec` and leaves its
/// accuracy to the implementing type.
pub trait FloatNumber: Numeric {
    open spec fn sqrt_spec(self) -> Self {
        vstd::pervasive::arbitrary()
    }

    /// The default error tolerance of the adaptive integrator, at the
    /// specification level.
    open spec fn default_tolerance_spec() -> Self {
        vstd::pervasive::arbitrary()
    }

    fn sqrt(self) -> (r: Self)
        ensures
            r == self.sqrt_spec(),
    ;

    /// The default error tolerance of the adaptive integrator.
    fn default_tolerance() -> (r: Self)
        ensures
            r == Self::default_tolerance_spec(),
    ;
}

/// The modulus of 64-bit wrapping arithmetic.
pub open spec fn two_to_64() -> int {
    0x1_0000_0000_0000_0000
}

// ------------------------------------------------------------------
// `u64`, under wrapping arithmetic: the ring of integers modulo `2^64`.
// ------------------------------------------------------------------

impl Scalar for u64 {

}

impl Zero for u64 {
    open spec fn zero_spec() -> u64 {
        0u64
    }

    fn zero() -> (r: u64) {
        0
    }
}

impl One for u64 {
    open spec fn one_spec() -> u64 {
        1u64
    }

    fn one() -> (r: u64) {
        1
    }
}

impl Additive for u64 {
    open spec fn add_spec(self, other: u64) -> u64 {
        ((self + other) % two_to_64()) as u64
    }

    open spec fn sub_spec(self, other: u64) -> u64 {
        ((self - other) % two_to_64()) as u64
    }

    fn add(self, other: u64) -> (r: u64) {
        self.wrapping_add(other)
    }

    fn sub(self, other: u64) -> (r: u64) {
        self.wrapping_sub(other)
    }
}

impl Multiplicative for u64 {
    open spec fn mul_spec(self, other: u64) -> u64 {
        ((self * other) % two_to_64()) as u64
    }

    open spec fn div_spec(self, other: u64) -> u64 {
        if other == 0 {
            0u64
        } else {
            (self / other) as u64
        }
    }

    open spec fn neg_spec(self) -> u64 {
        ((0 - self) % two_to_64()) as u64
    }

    fn mul(self, other: u64) -> (r: u64) {
        self.wrapping_mul(other)
    }

    fn div(self, other: u64) -> (r: u64) {
        if other == 0 {
            0
        } else {
            self / other
        }
    }

    fn neg(self) -> (r: u64) {
        0u64.wrapping_sub(self)
    }
}

impl Numeric for u64 {
    open spec fn lt_spec(self, other: u64) -> bool {
        self < other
    }

    fn lt(self, other: u64) -> (r: bool) {
        self < other
    }

    fn eq_zero(self) -> (r: bool) {
        self == 0
    }
}

/// Wrapping 64-bit arithmetic is exact modular arithmetic, so every ring
/// law holds of it.
impl RingLaws for u64 {
    proof fn law_add_comm(a: u64, b: u64) {
    }

    proof fn law_add_assoc(a: u64, b: u64, c: u64) {
        let m = two_to_64();
        vstd::arithmetic::div_mod::lemma_add_mod_noop_right(c as int, a + b, m);
        vstd::arithmetic::div_mod::lemma_add_mod_noop_right(a as int, b + c, m);
    }

    proof fn law_add_zero(a: u64) {
        vstd::arithmetic::div_mod::lemma_small_mod(a as nat, two_to_64() as nat);
    }

    proof fn law_mul_comm(a: u64, b: u64) {
        vstd::arithmetic::mul::lemma_mul_is_commutative(a as int, b as int);
    }

    proof fn law_mul_assoc(a: u64, b: u64, c: u64) {
        let m = two_to_64();
        vstd::arithmetic::div_mod::lemma_mul_mod_noop_left(a * b, c as int, m);
        vstd::arithmetic::div_mod::lemma_mul_mod_noop_right(a as int, b * c, m);
        vstd::arithmetic::mul::lemma_mul_is_associative(a as int, b as int, c as int);
    }

    proof fn law_mul_one(a: u64) {
        vstd::arithmetic::div_mod::lemma_small_mod(a as nat, two_to_64() as nat);
    }

    proof fn law_mul_zero(a: u64) {
    }

    proof fn law_mul_distrib(a: u64, b: u64, c: u64) {
        let m = two_to_64();
        vstd::arithmetic::div_mod::lemma_mul_mod_noop_right(a as int, b + c, m);
        vstd::arithmetic::mul::lemma_mul_is_distributive_add(a as int, b as int, c as int);
        vstd::arithmetic::div_mod::lemma_add_mod_noop(a * b, a * c, m);
        vstd::arithmetic::div_mod::lemma_mul_mod_noop_left(a + b, c as int, m);
        vstd::arithmetic::mul::lemma_mul_is_distributive_add_other_way(c as int, a as int, b as int);
        vstd::arithmetic::div_mod::lemma_add_mod_noop(a * c, b * c, m);
    }

    proof fn law_mul_distrib_sub(a: u64, b: u64, c: u64) {
        let m = two_to_64();
        vstd::arithmetic::div_mod::lemma_mul_mod_noop_right(a as int, b - c, m);
        vstd::arithmetic::mul::lemma_mul_is_distributive_sub(a as int, b as int, c as int);
        vstd::arithmetic::div_mod::lemma_sub_mod_noop(a * b, a * c, m);
        vstd::arithmetic::div_mod::lemma_mul_mod_noop_left(a - b, c as int, m);
        vstd::arithmetic::mul::lemma_mul_is_distributive_sub_other_way(c as int, a as int, b as int);
        vstd::arithmetic::div_mod::lemma_sub_mod_noop(a * c, b * c, m);
    }

    proof fn law_sub_neg(a: u64, b: u64) {
        let m = two_to_64();
        vstd::arithmetic::div_mod::lemma_add_mod_noop_right(a as int, 0 - b, m);
        vstd::arithmetic::div_mod::lemma_sub_mod_noop_right(0, a - b, m);
        vstd::arithmetic::div_mod::lemma_small_mod(a as nat, m as nat);
    }
}

} // verus!
