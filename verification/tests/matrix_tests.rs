//! Matrix construction, products, determinants and inversion.

use toolbox::math::matrix::BasicMatrixOps;
use toolbox::math::matrix::FloatMatrixOps;
use toolbox::math::matrix::Matrix1;
use toolbox::math::matrix::Matrix2;
use toolbox::math::matrix::Matrix3;
use toolbox::math::matrix::Matrix4;
use toolbox::math::matrix::Matrix5;
use toolbox::math::matrix::MatrixMxN;
use toolbox::math::matrix::MatrixN;
use toolbox::math::traits::Additive;
use toolbox::math::traits::FloatNumber;
use toolbox::math::traits::Multiplicative;
use toolbox::math::traits::Numeric;
use toolbox::math::traits::One;
use toolbox::math::traits::Scalar;
use toolbox::math::traits::Zero;
use toolbox::math::vector::Vector2;
use toolbox::math::vector::Vector3;
use toolbox::math::vector::VectorN;

#[derive(Debug, Default, Clone, Copy, PartialEq, PartialOrd)]
struct F32(f32);

impl Scalar for F32 {}

impl Zero for F32 {
    fn zero() -> F32 {
        F32(0.)
    }
}

impl One for F32 {
    fn one() -> F32 {
        F32(1.)
    }
}

impl Additive for F32 {
    fn add(self, other: F32) -> F32 {
        F32(self.0 + other.0)
    }

    fn sub(self, other: F32) -> F32 {
        F32(self.0 - other.0)
    }
}

impl Multiplicative for F32 {
    fn mul(self, other: F32) -> F32 {
        F32(self.0 * other.0)
    }

    fn div(self, other: F32) -> F32 {
        F32(self.0 / other.0)
    }

    fn neg(self) -> F32 {
        F32(-self.0)
    }
}

impl Numeric for F32 {
    fn lt(self, other: F32) -> bool {
        self.0 < other.0
    }

    fn eq_zero(self) -> bool {
        self.0 == 0.
    }
}

impl FloatNumber for F32 {
    fn sqrt(self) -> F32 {
        F32(self.0.sqrt())
    }

    fn default_tolerance() -> F32 {
        F32(1e-9)
    }
}

fn mat2_f32(m: [[f32; 2]; 2]) -> Matrix2<F32> {
    Matrix2::build([[F32(m[0][0]), F32(m[0][1])], [F32(m[1][0]), F32(m[1][1])]])
}

#[test]
fn matrix2() {
    let matrix1 = Matrix2::<u64>::identity();
    let matrix2 = Matrix2::<u64>::identity();
    let output = matrix1.mul_matrix(matrix2);
    assert!(output == Matrix2::<u64>::identity());

    let matrix1 = mat2_f32([[1., 2.], [3., 4.]]);
    let matrix2 = mat2_f32([[4., 5.], [6., 7.]]);
    let output = matrix1.mul_matrix(matrix2);
    assert!(output == mat2_f32([[16., 19.], [36., 43.]]));

    let matrix = mat2_f32([[1., 2.], [3., 4.]]);
    let inverse = matrix.inverse().unwrap();
    assert!(inverse == mat2_f32([[-2., 1.], [3. / 2., -1. / 2.]]));
}

#[test]
fn identity_times_identity() {
    assert!(Matrix1::<u64>::identity().ele == 1);
    let i3 = Matrix3::<u64>::identity();
    assert!(i3.mul_matrix(i3) == i3);
    let i5 = Matrix5::<u64>::identity();
    assert!(i5.mul_matrix(i5) == i5);
    let i7 = MatrixN::<u64, 7>::identity();
    assert!(i7.mul_matrix(i7) == i7);
}

#[test]
fn determinant_of_transpose() {
    let m = Matrix4::build([
        [1u64, 2, 3, 4],
        [0, 1, 7, 2],
        [5, 1, 1, 9],
        [2, 0, 3, 1],
    ]);
    assert!(m.transpose().determinant() == m.determinant());

    let m = Matrix5::build([
        [1u64, 2, 3, 4, 5],
        [0, 1, 7, 2, 8],
        [5, 1, 1, 9, 2],
        [2, 0, 3, 1, 6],
        [4, 4, 0, 2, 7],
    ]);
    assert!(m.transpose().determinant() == m.determinant());
}

#[test]
fn determinant_values() {
    let m = Matrix3::build([[2u64, 0, 1], [1, 3, 2], [1, 1, 1]]);
    // 2*(3-2) - 0*(1-2) + 1*(1-3) = 2 - 2 = 0
    assert!(m.determinant() == 0);
    let m = Matrix2::build([[1u64, 2], [3, 4]]);
    assert!(m.determinant() == 2u64.wrapping_neg());
    assert!(m.trace() == 5);
    assert!(m.cofactor(0, 1) == 3);
    assert!(Matrix1::build(9u64).determinant() == 9);
}

#[test]
fn inverse_of_singular_matrix_is_none() {
    let m = mat2_f32([[1., 2.], [0., 0.]]);
    assert!(m.inverse().is_none());
    let m = Matrix3::build([
        [F32(1.), F32(2.), F32(3.)],
        [F32(0.), F32(0.), F32(0.)],
        [F32(4.), F32(5.), F32(6.)],
    ]);
    assert!(m.inverse().is_none());
}

#[test]
fn inverse_times_matrix_is_near_identity() {
    let m = Matrix3::build([
        [F32(2.), F32(1.), F32(0.)],
        [F32(1.), F32(3.), F32(1.)],
        [F32(0.), F32(1.), F32(2.)],
    ]);
    let inv = m.inverse().unwrap();
    let product = m.mul_matrix(inv);
    let id = Matrix3::<F32>::identity();
    for i in 0..3 {
        for j in 0..3 {
            assert!((product.inner[i][j].0 - id.inner[i][j].0).abs() < 1e-5);
        }
    }
}

#[test]
fn transpose_and_trace() {
    let m = Matrix3::build([[1u64, 2, 3], [4, 5, 6], [7, 8, 9]]);
    assert!(m.transpose() == Matrix3::build([[1u64, 4, 7], [2, 5, 8], [3, 6, 9]]));
    assert!(m.trace() == 15);
    assert!(m.transpose().transpose() == m);
}

#[test]
fn cofactor_matrix_signs() {
    let m = Matrix2::build([[1u64, 2], [3, 4]]);
    // cofactors: [[4, -3], [-2, 1]]
    let c = m.cofactor_matrix();
    assert!(c == Matrix2::build([[4u64, 3u64.wrapping_neg()], [2u64.wrapping_neg(), 1]]));
}

#[test]
fn matrix_times_vector() {
    let m = Matrix2::build([[1u64, 2], [3, 4]]);
    let v = Vector2::build(5u64, 6);
    assert!(m.mul_vector(v) == Vector2::build(17u64, 39));

    let m = Matrix3::<u64>::identity();
    let v = Vector3::build(7u64, 8, 9);
    assert!(m.mul_vector(v) == v);
}

#[test]
fn splat_and_zeros_and_scalar_product() {
    assert!(Matrix3::<u64>::zeros() == Matrix3::build([[0u64; 3]; 3]));
    assert!(Matrix3::splat(4u64) == Matrix3::build([[4u64; 3]; 3]));
    assert!(Matrix2::splat(3u64).mul_scalar(2) == Matrix2::splat(6u64));
    let a = Matrix2::build([[1u64, 2], [3, 4]]);
    let b = Matrix2::build([[4u64, 3], [2, 1]]);
    assert!(a.add(b) == Matrix2::splat(5u64));
    assert!(a.sub(a) == Matrix2::<u64>::zeros());
}

#[test]
fn rectangular_product() {
    let a = MatrixMxN::<u64, 2, 3>::build([[1, 2, 3], [4, 5, 6]]);
    let b = MatrixMxN::<u64, 3, 2>::build([[7, 8], [9, 10], [11, 12]]);
    let p = a.mul_matrix(b);
    assert!(p == MatrixMxN::<u64, 2, 2>::build([[58, 64], [139, 154]]));
    let v = VectorN::build([1u64, 0, 1]);
    assert!(a.mul_vector(v) == VectorN::build([4u64, 10]));
    assert!(MatrixMxN::<u64, 2, 2>::splat(2).mul_scalar(3) == MatrixMxN::splat(6u64));
    assert!(MatrixMxN::<u64, 2, 4>::zeros().inner == [[0u64; 4]; 2]);
}

#[test]
fn general_dimension_determinant() {
    // An upper-triangular 6x6 matrix: the determinant is the product of
    // the diagonal.
    let mut inner = [[0u64; 6]; 6];
    let mut next = 1u64;
    for i in 0..6 {
        for j in i..6 {
            inner[i][j] = next;
            next += 1;
        }
    }
    let m = MatrixN::build(inner);
    let mut expected = 1u64;
    for i in 0..6 {
        expected = expected.wrapping_mul(inner[i][i]);
    }
    assert!(m.determinant() == expected);
}
