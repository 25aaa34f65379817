//! Vector construction, arithmetic and the cross product.

use toolbox::math::traits::Additive;
use toolbox::math::traits::FloatNumber;
use toolbox::math::traits::Multiplicative;
use toolbox::math::traits::Numeric;
use toolbox::math::traits::One;
use toolbox::math::traits::Scalar;
use toolbox::math::traits::Zero;
use toolbox::math::vector::BasicVectorOps;
use toolbox::math::vector::FloatVectorOps;
use toolbox::math::vector::Vector1;
use toolbox::math::vector::Vector2;
use toolbox::math::vector::Vector3;
use toolbox::math::vector::Vector4;
use toolbox::math::vector::VectorN;

#[derive(Debug, Default, Clone, Copy, PartialEq, PartialOrd)]
struct F32(f32);

impl Scalar for F32 {}

impl Zero for F32 {
    fn zero() -> F32 {
        F32(0.)
    }
}

impl One for F32 {
    fn one() -> F32 {
        F32(1.)
    }
}

impl Additive for F32 {
    fn add(self, other: F32) -> F32 {
        F32(self.0 + other.0)
    }

    fn sub(self, other: F32) -> F32 {
        F32(self.0 - other.0)
    }
}

impl Multiplicative for F32 {
    fn mul(self, other: F32) -> F32 {
        F32(self.0 * other.0)
    }

    fn div(self, other: F32) -> F32 {
        F32(self.0 / other.0)
    }

    fn neg(self) -> F32 {
        F32(-self.0)
    }
}

impl Numeric for F32 {
    fn lt(self, other: F32) -> bool {
        self.0 < other.0
    }

    fn eq_zero(self) -> bool {
        self.0 == 0.
    }
}

impl FloatNumber for F32 {
    fn sqrt(self) -> F32 {
        F32(self.0.sqrt())
    }

    fn default_tolerance() -> F32 {
        F32(1e-9)
    }
}

#[test]
fn macros() {
    let vector = Vector4::build(4 as i32, 10 as i32, 4.3 as i32, -5 as i32);
    assert!(vector == Vector4::build(4, 10, 4, -5));
}

#[test]
fn overloading_cross() {
    let v1 = Vector3::build(F32(10.), F32(0.), F32(0.));
    let v2 = Vector3::build(F32(0.), F32(0.), F32(10.));
    let product = v1.cross_product(v2);
    assert!(product == Vector3::build(F32(0.), F32(-100.), F32(0.)));
}

#[test]
fn swizzle_testing() {
    let vector = Vector3::build(99, 1, 1);
    let vec = Vector1::build(vector.x as f32);
    assert!(vec == Vector1::build(99.));
}

#[test]
fn improved_swizzle() {
    let vector = Vector3::build(99, 1, 1);
    let vec = Vector3::build(vector.x as f32, vector.z as f32, 3 as f32);
    assert!(vec == Vector3::build(99., 1., 3.))
}

#[test]
fn cross_product_anticommutes() {
    let a = Vector3::build(1u64, 2, 3);
    let b = Vector3::build(4u64, 5, 6);
    assert!(a.cross_product(b) == b.cross_product(a).neg());
    assert!(a.cross_product(b) == Vector3::build(3u64.wrapping_neg(), 6, 3u64.wrapping_neg()));
}

#[test]
fn inner_product_uses_every_component() {
    let a = Vector4::build(1u64, 2, 3, 4);
    let b = Vector4::build(1u64, 1, 1, 1);
    assert!(a.inner_product(b) == 10);
    assert!(a.squared_length() == 30);
}

#[test]
fn two_dimensional_determinant() {
    let a = Vector2::build(3u64, 1);
    let b = Vector2::build(2u64, 4);
    assert!(a.determinant(b) == 10);
}

#[test]
fn normalize_gives_unit_length() {
    let v = Vector3::build(F32(3.), F32(0.), F32(4.));
    assert!(v.length() == F32(5.));
    let n = v.normalize();
    assert!((n.length().0 - 1.).abs() < 1e-6);
    assert!(n == Vector3::build(F32(0.6), F32(0.), F32(0.8)));
}

#[test]
fn normalize_zero_vector_is_degenerate() {
    let v = Vector2::build(F32(0.), F32(0.));
    let n = v.normalize();
    assert!(n.x.0.is_nan() && n.y.0.is_nan());
}

#[test]
fn general_dimension_vector_arithmetic() {
    let a = VectorN::build([1u64, 2, 3, 4, 5, 6]);
    let b = VectorN::build([6u64, 5, 4, 3, 2, 1]);
    assert!(a.add(b) == VectorN::build([7u64; 6]));
    assert!(a.sub(b).inner == [5u64.wrapping_neg(), 3u64.wrapping_neg(), 1u64.wrapping_neg(), 1, 3, 5]);
    assert!(a.mul_scalar(2) == VectorN::build([2u64, 4, 6, 8, 10, 12]));
    assert!(a.inner_product(b) == 56);
    assert!(VectorN::<u64, 4>::zeros() == VectorN::build([0u64; 4]));
    assert!(a.array() == [1u64, 2, 3, 4, 5, 6]);
}

#[test]
fn wrapping_scalar_arithmetic() {
    assert!(Additive::add(u64::MAX, 1u64) == 0);
    assert!(Additive::sub(0u64, 1u64) == u64::MAX);
    assert!(Multiplicative::div(5u64, 0u64) == 0);
    assert!(Multiplicative::neg(1u64) == u64::MAX);
}
