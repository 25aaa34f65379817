//! Fixed-dimension vectors over a generic scalar type.
//!
//! Dimensions one to five have named fields (`x`, `y`, `z`, `w`, `t`); the
//! general dimension is array-backed.  Every operation returns a new vector
//! and is specified against the sequence of its components: the
//! specification functions below (`dot_seq`, `vadd_seq`, ...) are the
//! mathematical model that the contracts speak of.

use vstd::prelude::*;

use super::traits::Additive;
use super::traits::FloatNumber;
use super::traits::Multiplicative;
use super::traits::Numeric;

verus! {

broadcast use vstd::array::group_array_axioms;

/// The multiply-accumulate of the first `k` component pairs, folded from
/// the left starting at the first product (`zero` when there is none),
/// exactly as the executable loops compute it.
pub open spec fn dot_prefix<T: Numeric>(a: Seq<T>, b: Seq<T>, k: int) -> T
    decreases k,
{
    if k <= 0 {
        T::zero_spec()
    } else if k == 1 {
        a[0].mul_spec(b[0])
    } else {
        dot_prefix(a, b, k - 1).add_spec(a[k - 1].mul_spec(b[k - 1]))
    }
}

/// The inner product of two component sequences of equal length.
pub open spec fn dot_seq<T: Numeric>(a: Seq<T>, b: Seq<T>) -> T {
    dot_prefix(a, b, a.len() as int)
}

/// Componentwise addition.
pub open spec fn vadd_seq<T: Additive>(a: Seq<T>, b: Seq<T>) -> Seq<T> {
    Seq::new(a.len(), |i: int| a[i].add_spec(b[i]))
}

/// Componentwise subtraction.
pub open spec fn vsub_seq<T: Additive>(a: Seq<T>, b: Seq<T>) -> Seq<T> {
    Seq::new(a.len(), |i: int| a[i].sub_spec(b[i]))
}

/// Every component multiplied by one scalar.
pub open spec fn vscale_seq<T: Multiplicative>(a: Seq<T>, c: T) -> Seq<T> {
    Seq::new(a.len(), |i: int| a[i].mul_spec(c))
}

/// Every component divided by one scalar.
pub open spec fn vdiv_seq<T: Multiplicative>(a: Seq<T>, c: T) -> Seq<T> {
    Seq::new(a.len(), |i: int| a[i].div_spec(c))
}

/// Every component negated.
pub open spec fn vneg_seq<T: Multiplicative>(a: Seq<T>) -> Seq<T> {
    Seq::new(a.len(), |i: int| a[i].neg_spec())
}

/// The same value in every component.
pub open spec fn vsplat_seq<T>(n: nat, v: T) -> Seq<T> {
    Seq::new(n, |i: int| v)
}

/// Vector operations available over any `Numeric` scalar.  `coords` is the
/// specification-level view of a vector as the ordered sequence of its
/// components; every contract is stated against it.
pub trait BasicVectorOps<T: Numeric>: Sized {
    /// The components of the vector, in order.
    spec fn coords(&self) -> Seq<T>;

    /// Componentwise multiply-accumulate.
    fn inner_product(self, other: Self) -> (r: T)
        ensures
            r == dot_seq(self.coords(), other.coords()),
    ;

    /// The inner product of the vector with itself.
    fn squared_length(self) -> (r: T)
        ensures
            r == dot_seq(self.coords(), self.coords()),
    ;
}

/// Vector operations that need a square root.  Normalizing a zero-length
/// vector divides by zero; the result is then whatever the scalar type's
/// division gives, and callers must guard against degenerate input
/// themselves.
pub trait FloatVectorOps<T: FloatNumber>: BasicVectorOps<T> {
    /// The Euclidean length.
    fn length(self) -> (r: T)
        ensures
            r == dot_seq(self.coords(), self.coords()).sqrt_spec(),
    ;

    /// The vector scaled to length one by dividing through its own length.
    fn normalize(self) -> (r: Self)
        ensures
            r.coords() == vdiv_seq(
                self.coords(),
                dot_seq(self.coords(), self.coords()).sqrt_spec(),
            ),
    ;
}

// ------------------------------------------------------------------
// Vector of dimension 1
// ------------------------------------------------------------------

#[derive(Debug, Default, Clone, Copy, PartialEq, Eq, PartialOrd, Ord)]
pub struct Vector1<T> {
    pub ele: T,
}

impl<T> Vector1<T> {
    pub fn build(ele: T) -> (r: Self)
        ensures
            r == (Vector1 { ele }),
    {
        Self { ele }
    }
}

impl<T: Numeric> BasicVectorOps<T> for Vector1<T> {
    open spec fn coords(&self) -> Seq<T> {
        seq![self.ele]
    }

    fn inner_product(self, other: Self) -> (r: T) {
        proof {
            reveal_with_fuel(dot_prefix, 7);
        }
        self.ele.mul(other.ele)
    }

    fn squared_length(self) -> (r: T) {
        self.inner_product(self)
    }
}

// ------------------------------------------------------------------
// Vector of dimension 2
// ------------------------------------------------------------------

#[derive(Debug, Default, Clone, Copy, PartialEq, Eq, PartialOrd, Ord)]
pub struct Vector2<T> {
    pub x: T,
    pub y: T,
}

impl<T> Vector2<T> {
    pub fn build(x: T, y: T) -> (r: Self)
        ensures
            r == (Vector2 { x, y }),
    {
        Self { x, y }
    }
}

impl<T: Numeric> Vector2<T> {
    /// The scalar standing in for a two-dimensional cross product:
    /// `x1 * y2 - y1 * x2`.
    pub fn determinant(self, other: Self) -> (r: T)
        ensures
            r == self.x.mul_spec(other.y).sub_spec(self.y.mul_spec(other.x)),
    {
        self.x.mul(other.y).sub(self.y.mul(other.x))
    }

    /// The components as a fixed-length array.
    pub fn array(&self) -> (r: [T; 2])
        ensures
            r@ == self.coords(),
    {
        let r = [self.x, self.y];
        proof {
            assert(r@ =~= self.coords());
        }
        r
    }

    pub fn add(self, other: Self) -> (r: Self)
        ensures
            r.coords() == vadd_seq(self.coords(), other.coords()),
    {
        let r = Self::build(self.x.add(other.x), self.y.add(other.y));
        proof {
            assert(r.coords() =~= vadd_seq(self.coords(), other.coords()));
        }
        r
    }

    pub fn sub(self, other: Self) -> (r: Self)
        ensures
            r.coords() == vsub_seq(self.coords(), other.coords()),
    {
        let r = Self::build(self.x.sub(other.x), self.y.sub(other.y));
        proof {
            assert(r.coords() =~= vsub_seq(self.coords(), other.coords()));
        }
        r
    }

    pub fn mul_scalar(self, scalar: T) -> (r: Self)
        ensures
            r.coords() == vscale_seq(self.coords(), scalar),
    {
        let r = Self::build(self.x.mul(scalar), self.y.mul(scalar));
        proof {
            assert(r.coords() =~= vscale_seq(self.coords(), scalar));
        }
        r
    }

    pub fn div_scalar(self, scalar: T) -> (r: Self)
        ensures
            r.coords() == vdiv_seq(self.coords(), scalar),
    {
        let r = Self::build(self.x.div(scalar), self.y.div(scalar));
        proof {
            assert(r.coords() =~= vdiv_seq(self.coords(), scalar));
        }
        r
    }

    pub fn neg(self) -> (r: Self)
        ensures
            r.coords() == vneg_seq(self.coords()),
    {
        let r = Self::build(self.x.neg(), self.y.neg());
        proof {
            assert(r.coords() =~= vneg_seq(self.coords()));
        }
        r
    }
}

impl<T: Numeric> BasicVectorOps<T> for Vector2<T> {
    open spec fn coords(&self) -> Seq<T> {
        seq![self.x, self.y]
    }

    fn inner_product(self, other: Self) -> (r: T) {
        proof {
            reveal_with_fuel(dot_prefix, 7);
        }
        self.x.mul(other.x).add(self.y.mul(other.y))
    }

    fn squared_length(self) -> (r: T) {
        self.inner_product(self)
    }
}

impl<T: FloatNumber> FloatVectorOps<T> for Vector2<T> {
    fn length(self) -> (r: T) {
        self.squared_length().sqrt()
    }

    fn normalize(self) -> (r: Self) {
        let len = self.length();
        let r = self.div_scalar(len);
        proof {
            assert(r.coords() =~= vdiv_seq(
                self.coords(),
                dot_seq(self.coords(), self.coords()).sqrt_spec(),
            ));
        }
        r
    }
}

// ------------------------------------------------------------------
// Vector of dimension 3
// ------------------------------------------------------------------

#[derive(Debug, Default, Clone, Copy, PartialEq, Eq, PartialOrd, Ord)]
pub struct Vector3<T> {
    pub x: T,
    pub y: T,
    pub z: T,
}

impl<T> Vector3<T> {
    pub fn build(x: T, y: T, z: T) -> (r: Self)
        ensures
            r == (Vector3 { x, y, z }),
    {
        Self { x, y, z }
    }
}

impl<T: Numeric> Vector3<T> {
    /// The right-hand-rule cross product, at the specification level.
    pub open spec fn cross_spec(self, other: Self) -> Self {
        Vector3 {
            x: self.y.mul_spec(other.z).sub_spec(self.z.mul_spec(other.y)),
            y: self.z.mul_spec(other.x).sub_spec(self.x.mul_spec(other.z)),
            z: self.x.mul_spec(other.y).sub_spec(self.y.mul_spec(other.x)),
        }
    }

    /// The right-hand-rule cross product.
    pub fn cross_product(self, other: Self) -> (r: Self)
        ensures
            r == self.cross_spec(other),
    {
        Self::build(
            self.y.mul(other.z).sub(self.z.mul(other.y)),
            self.z.mul(other.x).sub(self.x.mul(other.z)),
            self.x.mul(other.y).sub(self.y.mul(other.x)),
        )
    }

    /// The components as a fixed-length array.
    pub fn array(&self) -> (r: [T; 3])
        ensures
            r@ == self.coords(),
    {
        let r = [self.x, self.y, self.z];
        proof {
            assert(r@ =~= self.coords());
        }
        r
    }

    pub fn add(self, other: Self) -> (r: Self)
        ensures
            r.coords() == vadd_seq(self.coords(), other.coords()),
    {
        let r = Self::build(self.x.add(other.x), self.y.add(other.y), self.z.add(other.z));
        proof {
            assert(r.coords() =~= vadd_seq(self.coords(), other.coords()));
        }
        r
    }

    pub fn sub(self, other: Self) -> (r: Self)
        ensures
            r.coords() == vsub_seq(self.coords(), other.coords()),
    {
        let r = Self::build(self.x.sub(other.x), self.y.sub(other.y), self.z.sub(other.z));
        proof {
            assert(r.coords() =~= vsub_seq(self.coords(), other.coords()));
        }
        r
    }

    pub fn mul_scalar(self, scalar: T) -> (r: Self)
        ensures
            r.coords() == vscale_seq(self.coords(), scalar),
    {
        let r = Self::build(self.x.mul(scalar), self.y.mul(scalar), self.z.mul(scalar));
        proof {
            assert(r.coords() =~= vscale_seq(self.coords(), scalar));
        }
        r
    }

    pub fn div_scalar(self, scalar: T) -> (r: Self)
        ensures
            r.coords() == vdiv_seq(self.coords(), scalar),
    {
        let r = Self::build(self.x.div(scalar), self.y.div(scalar), self.z.div(scalar));
        proof {
            assert(r.coords() =~= vdiv_seq(self.coords(), scalar));
        }
        r
    }

    pub fn neg(self) -> (r: Self)
        ensures
            r.coords() == vneg_seq(self.coords()),
    {
        let r = Self::build(self.x.neg(), self.y.neg(), self.z.neg());
        proof {
            assert(r.coords() =~= vneg_seq(self.coords()));
        }
        r
    }
}

impl<T: Numeric> BasicVectorOps<T> for Vector3<T> {
    open spec fn coords(&self) -> Seq<T> {
        seq![self.x, self.y, self.z]
    }

    fn inner_product(self, other: Self) -> (r: T) {
        proof {
            reveal_with_fuel(dot_prefix, 7);
        }
        self.x.mul(other.x).add(self.y.mul(other.y)).add(self.z.mul(other.z))
    }

    fn squared_length(self) -> (r: T) {
        self.inner_product(self)
    }
}

impl<T: FloatNumber> FloatVectorOps<T> for Vector3<T> {
    fn length(self) -> (r: T) {
        self.squared_length().sqrt()
    }

    fn normalize(self) -> (r: Self) {
        let len = self.length();
        let r = self.div_scalar(len);
        proof {
            assert(r.coords() =~= vdiv_seq(
                self.coords(),
                dot_seq(self.coords(), self.coords()).sqrt_spec(),
            ));
        }
        r
    }
}

// ------------------------------------------------------------------
// Vector of dimension 4
// ------------------------------------------------------------------

#[derive(Debug, Default, Clone, Copy, PartialEq, Eq, PartialOrd, Ord)]
pub struct Vector4<T> {
    pub x: T,
    pub y: T,
    pub z: T,
    pub w: T,
}

impl<T> Vector4<T> {
    pub fn build(x: T, y: T, z: T, w: T) -> (r: Self)
        ensures
            r == (Vector4 { x, y, z, w }),
    {
        Self { x, y, z, w }
    }
}

impl<T: Numeric> Vector4<T> {
    /// The components as a fixed-length array.
    pub fn array(&self) -> (r: [T; 4])
        ensures
            r@ == self.coords(),
    {
        let r = [self.x, self.y, self.z, self.w];
        proof {
            assert(r@ =~= self.coords());
        }
        r
    }

    pub fn add(self, other: Self) -> (r: Self)
        ensures
            r.coords() == vadd_seq(self.coords(), other.coords()),
    {
        let r = Self::build(
            self.x.add(other.x),
            self.y.add(other.y),
            self.z.add(other.z),
            self.w.add(other.w),
        );
        proof {
            assert(r.coords() =~= vadd_seq(self.coords(), other.coords()));
        }
        r
    }

    pub fn sub(self, other: Self) -> (r: Self)
        ensures
            r.coords() == vsub_seq(self.coords(), other.coords()),
    {
        let r = Self::build(
            self.x.sub(other.x),
            self.y.sub(other.y),
            self.z.sub(other.z),
            self.w.sub(other.w),
        );
        proof {
            assert(r.coords() =~= vsub_seq(self.coords(), other.coords()));
        }
        r
    }

    pub fn mul_scalar(self, scalar: T) -> (r: Self)
        ensures
            r.coords() == vscale_seq(self.coords(), scalar),
    {
        let r = Self::build(
            self.x.mul(scalar),
            self.y.mul(scalar),
            self.z.mul(scalar),
            self.w.mul(scalar),
        );
        proof {
            assert(r.coords() =~= vscale_seq(self.coords(), scalar));
        }
        r
    }

    pub fn div_scalar(self, scalar: T) -> (r: Self)
        ensures
            r.coords() == vdiv_seq(self.coords(), scalar),
    {
        let r = Self::build(
            self.x.div(scalar),
            self.y.div(scalar),
            self.z.div(scalar),
            self.w.div(scalar),
        );
        proof {
            assert(r.coords() =~= vdiv_seq(self.coords(), scalar));
        }
        r
    }

    pub fn neg(self) -> (r: Self)
        ensures
            r.coords() == vneg_seq(self.coords()),
    {
        let r = Self::build(self.x.neg(), self.y.neg(), self.z.neg(), self.w.neg());
        proof {
            assert(r.coords() =~= vneg_seq(self.coords()));
        }
        r
    }
}

impl<T: Numeric> BasicVectorOps<T> for Vector4<T> {
    open spec fn coords(&self) -> Seq<T> {
        seq![self.x, self.y, self.z, self.w]
    }

    fn inner_product(self, other: Self) -> (r: T) {
        proof {
            reveal_with_fuel(dot_prefix, 7);
        }
        self.x.mul(other.x).add(self.y.mul(other.y)).add(self.z.mul(other.z)).add(
            self.w.mul(other.w),
        )
    }

    fn squared_length(self) -> (r: T) {
        self.inner_product(self)
    }
}

impl<T: FloatNumber> FloatVectorOps<T> for Vector4<T> {
    fn length(self) -> (r: T) {
        self.squared_length().sqrt()
    }

    fn normalize(self) -> (r: Self) {
        let len = self.length();
        let r = self.div_scalar(len);
        proof {
            assert(r.coords() =~= vdiv_seq(
                self.coords(),
                dot_seq(self.coords(), self.coords()).sqrt_spec(),
            ));
        }
        r
    }
}

// ------------------------------------------------------------------
// Vector of dimension 5
// ------------------------------------------------------------------

#[derive(Debug, Default, Clone, Copy, PartialEq, Eq, PartialOrd, Ord)]
pub struct Vector5<T> {
    pub x: T,
    pub y: T,
    pub z: T,
    pub w: T,
    pub t: T,
}

impl<T> Vector5<T> {
    pub fn build(x: T, y: T, z: T, w: T, t: T) -> (r: Self)
        ensures
            r == (Vector5 { x, y, z, w, t }),
    {
        Self { x, y, z, w, t }
    }
}

impl<T: Numeric> Vector5<T> {
    /// The components as a fixed-length array.
    pub fn array(&self) -> (r: [T; 5])
        ensures
            r@ == self.coords(),
    {
        let r = [self.x, self.y, self.z, self.w, self.t];
        proof {
            assert(r@ =~= self.coords());
        }
        r
    }

    pub fn add(self, other: Self) -> (r: Self)
        ensures
            r.coords() == vadd_seq(self.coords(), other.coords()),
    {
        let r = Self::build(
            self.x.add(other.x),
            self.y.add(other.y),
            self.z.add(other.z),
            self.w.add(other.w),
            self.t.add(other.t),
        );
        proof {
            assert(r.coords() =~= vadd_seq(self.coords(), other.coords()));
        }
        r
    }

    pub fn sub(self, other: Self) -> (r: Self)
        ensures
            r.coords() == vsub_seq(self.coords(), other.coords()),
    {
        let r = Self::build(
            self.x.sub(other.x),
            self.y.sub(other.y),
            self.z.sub(other.z),
            self.w.sub(other.w),
            self.t.sub(other.t),
        );
        proof {
            assert(r.coords() =~= vsub_seq(self.coords(), other.coords()));
        }
        r
    }

    pub fn mul_scalar(self, scalar: T) -> (r: Self)
        ensures
            r.coords() == vscale_seq(self.coords(), scalar),
    {
        let r = Self::build(
            self.x.mul(scalar),
            self.y.mul(scalar),
            self.z.mul(scalar),
            self.w.mul(scalar),
            self.t.mul(scalar),
        );
        proof {
            assert(r.coords() =~= vscale_seq(self.coords(), scalar));
        }
        r
    }

    pub fn div_scalar(self, scalar: T) -> (r: Self)
        ensures
            r.coords() == vdiv_seq(self.coords(), scalar),
    {
        let r = Self::build(
            self.x.div(scalar),
            self.y.div(scalar),
            self.z.div(scalar),
            self.w.div(scalar),
            self.t.div(scalar),
        );
        proof {
            assert(r.coords() =~= vdiv_seq(self.coords(), scalar));
        }
        r
    }

    pub fn neg(self) -> (r: Self)
        ensures
            r.coords() == vneg_seq(self.coords()),
    {
        let r = Self::build(self.x.neg(), self.y.neg(), self.z.neg(), self.w.neg(), self.t.neg());
        proof {
            assert(r.coords() =~= vneg_seq(self.coords()));
        }
        r
    }
}

impl<T: Numeric> BasicVectorOps<T> for Vector5<T> {
    open spec fn coords(&self) -> Seq<T> {
        seq![self.x, self.y, self.z, self.w, self.t]
    }

    fn inner_product(self, other: Self) -> (r: T) {
        proof {
            reveal_with_fuel(dot_prefix, 7);
        }
        self.x.mul(other.x).add(self.y.mul(other.y)).add(self.z.mul(other.z)).add(
            self.w.mul(other.w),
        ).add(self.t.mul(other.t))
    }

    fn squared_length(self) -> (r: T) {
        self.inner_product(self)
    }
}

impl<T: FloatNumber> FloatVectorOps<T> for Vector5<T> {
    fn length(self) -> (r: T) {
        self.squared_length().sqrt()
    }

    fn normalize(self) -> (r: Self) {
        let len = self.length();
        let r = self.div_scalar(len);
        proof {
            assert(r.coords() =~= vdiv_seq(
                self.coords(),
                dot_seq(self.coords(), self.coords()).sqrt_spec(),
            ));
        }
        r
    }
}

// ------------------------------------------------------------------
// Vector of general dimension
// ------------------------------------------------------------------

#[derive(Debug, Clone, Copy, PartialEq, Eq, PartialOrd, Ord)]
pub struct VectorN<T, const N: usize> {
    pub inner: [T; N],
}

impl<T, const N: usize> VectorN<T, N> {
    pub fn build(inner: [T; N]) -> (r: Self)
        ensures
            r == (VectorN { inner }),
    {
        Self { inner }
    }
}

impl<T: Numeric, const N: usize> VectorN<T, N> {
    /// The components as a fixed-length array.
    pub fn array(&self) -> (r: [T; N])
        ensures
            r@ == self.coords(),
    {
        self.inner
    }

    /// The vector with `zero` in every component.
    pub fn zeros() -> (r: Self)
        ensures
            r.coords() == vsplat_seq(N as nat, T::zero_spec()),
    {
        let r = Self::build(vstd::array::array_fill_for_copy_types(T::zero()));
        proof {
            assert(r.coords() =~= vsplat_seq(N as nat, T::zero_spec()));
        }
        r
    }

    pub fn add(self, other: Self) -> (r: Self)
        ensures
            r.coords() == vadd_seq(self.coords(), other.coords()),
    {
        let mut inner = self.inner;
        for i in 0..N
            invariant
                inner@.len() == N,
                forall|k: int| 0 <= k < i ==> inner@[k] == self.inner@[k].add_spec(other.inner@[k]),
                forall|k: int| i <= k < N ==> inner@[k] == self.inner@[k],
        {
            inner[i] = self.inner[i].add(other.inner[i]);
        }
        let r = Self::build(inner);
        proof {
            assert(r.coords() =~= vadd_seq(self.coords(), other.coords()));
        }
        r
    }

    pub fn sub(self, other: Self) -> (r: Self)
        ensures
            r.coords() == vsub_seq(self.coords(), other.coords()),
    {
        let mut inner = self.inner;
        for i in 0..N
            invariant
                inner@.len() == N,
                forall|k: int| 0 <= k < i ==> inner@[k] == self.inner@[k].sub_spec(other.inner@[k]),
                forall|k: int| i <= k < N ==> inner@[k] == self.inner@[k],
        {
            inner[i] = self.inner[i].sub(other.inner[i]);
        }
        let r = Self::build(inner);
        proof {
            assert(r.coords() =~= vsub_seq(self.coords(), other.coords()));
        }
        r
    }

    pub fn mul_scalar(self, scalar: T) -> (r: Self)
        ensures
            r.coords() == vscale_seq(self.coords(), scalar),
    {
        let mut inner = self.inner;
        for i in 0..N
            invariant
                inner@.len() == N,
                forall|k: int| 0 <= k < i ==> inner@[k] == self.inner@[k].mul_spec(scalar),
                forall|k: int| i <= k < N ==> inner@[k] == self.inner@[k],
        {
            inner[i] = self.inner[i].mul(scalar);
        }
        let r = Self::build(inner);
        proof {
            assert(r.coords() =~= vscale_seq(self.coords(), scalar));
        }
        r
    }

    pub fn div_scalar(self, scalar: T) -> (r: Self)
        ensures
            r.coords() == vdiv_seq(self.coords(), scalar),
    {
        let mut inner = self.inner;
        for i in 0..N
            invariant
                inner@.len() == N,
                forall|k: int| 0 <= k < i ==> inner@[k] == self.inner@[k].div_spec(scalar),
                forall|k: int| i <= k < N ==> inner@[k] == self.inner@[k],
        {
            inner[i] = self.inner[i].div(scalar);
        }
        let r = Self::build(inner);
        proof {
            assert(r.coords() =~= vdiv_seq(self.coords(), scalar));
        }
        r
    }

    pub fn neg(self) -> (r: Self)
        ensures
            r.coords() == vneg_seq(self.coords()),
    {
        let mut inner = self.inner;
        for i in 0..N
            invariant
                inner@.len() == N,
                forall|k: int| 0 <= k < i ==> inner@[k] == self.inner@[k].neg_spec(),
                forall|k: int| i <= k < N ==> inner@[k] == self.inner@[k],
        {
            inner[i] = self.inner[i].neg();
        }
        let r = Self::build(inner);
        proof {
            assert(r.coords() =~= vneg_seq(self.coords()));
        }
        r
    }
}

impl<T: Numeric, const N: usize> BasicVectorOps<T> for VectorN<T, N> {
    open spec fn coords(&self) -> Seq<T> {
        self.inner@
    }

    fn inner_product(self, other: Self) -> (r: T) {
        let mut out = T::zero();
        for i in 0..N
            invariant
                out == dot_prefix(self.inner@, other.inner@, i as int),
        {
            let term = self.inner[i].mul(other.inner[i]);
            out = if i == 0 {
                term
            } else {
                out.add(term)
            };
        }
        out
    }

    fn squared_length(self) -> (r: T) {
        self.inner_product(self)
    }
}

impl<T: FloatNumber, const N: usize> FloatVectorOps<T> for VectorN<T, N> {
    fn length(self) -> (r: T) {
        self.squared_length().sqrt()
    }

    fn normalize(self) -> (r: Self) {
        let len = self.length();
        self.div_scalar(len)
    }
}

} // verus!
