//! Algebraic laws of the vector and matrix operations, proved once over
//! every scalar type that implements `RingLaws`.

use vstd::prelude::*;

use super::matrix::det_seq;
use super::matrix::det_expand;
use super::matrix::identity_seq;
use super::matrix::is_square;
use super::matrix::matmul_seq;
use super::matrix::minor_seq;
use super::matrix::mm_entry;
use super::matrix::transpose_seq;
use super::traits::RingLaws;
use super::vector::vneg_seq;
use super::vector::BasicVectorOps;
use super::vector::Vector3;

verus! {

/// In a sum of three, the last two summands may change places.
proof fn lemma_add_swap<T: RingLaws>(a: T, b: T, c: T)
    ensures
        a.add_spec(b).add_spec(c) == a.add_spec(c).add_spec(b),
{
    T::law_add_assoc(a, b, c);
    T::law_add_comm(b, c);
    T::law_add_assoc(a, c, b);
}

/// `x - (p - q) + (r - s) == x - (p - r) + (q - s)`: the regrouping that
/// relates a determinant to the determinant of its transpose.
proof fn lemma_add_shuffle<T: RingLaws>(x: T, p: T, q: T, r: T, s: T)
    ensures
        x.sub_spec(p.sub_spec(q)).add_spec(r.sub_spec(s)) == x.sub_spec(p.sub_spec(r)).add_spec(
            q.sub_spec(s),
        ),
{
    let pn = p.neg_spec();
    let sn = s.neg_spec();
    T::law_sub_neg(x, p.sub_spec(q));
    T::law_sub_neg(p, q);
    T::law_sub_neg(q, p);
    T::law_add_assoc(x, q, pn);
    T::law_sub_neg(x, p.sub_spec(r));
    T::law_sub_neg(p, r);
    T::law_sub_neg(r, p);
    T::law_add_assoc(x, r, pn);
    T::law_sub_neg(r, s);
    T::law_sub_neg(q, s);
    T::law_add_assoc(x.add_spec(q).add_spec(pn), r, sn);
    T::law_add_assoc(x.add_spec(r).add_spec(pn), q, sn);
    lemma_add_swap(x.add_spec(q), pn, r);
    lemma_add_swap(x, q, r);
    lemma_add_swap(x.add_spec(r), q, pn);
}

/// `x * (y * z) == y * (x * z)`.
proof fn lemma_mul_shuffle<T: RingLaws>(x: T, y: T, z: T)
    ensures
        x.mul_spec(y.mul_spec(z)) == y.mul_spec(x.mul_spec(z)),
{
    T::law_mul_assoc(x, y, z);
    T::law_mul_comm(x, y);
    T::law_mul_assoc(y, x, z);
}

/// `x * (y * z) == z * (x * y)`.
proof fn lemma_mul_rotate<T: RingLaws>(x: T, y: T, z: T)
    ensures
        x.mul_spec(y.mul_spec(z)) == z.mul_spec(x.mul_spec(y)),
{
    T::law_mul_assoc(x, y, z);
    T::law_mul_comm(x.mul_spec(y), z);
}

/// The determinant of a two-by-two matrix written out.
proof fn lemma_det2<T: RingLaws>(m: Seq<Seq<T>>)
    requires
        m.len() == 2,
        is_square(m),
    ensures
        det_seq(m) == m[0][0].mul_spec(m[1][1]).sub_spec(m[0][1].mul_spec(m[1][0])),
{
    reveal_with_fuel(det_seq, 3);
    reveal_with_fuel(det_expand, 3);
    assert(minor_seq(m, 0, 0)[0][0] == m[1][1]);
    assert(minor_seq(m, 0, 1)[0][0] == m[1][0]);
}

/// The determinant of a three-by-three matrix written out.
proof fn lemma_det3<T: RingLaws>(m: Seq<Seq<T>>)
    requires
        m.len() == 3,
        is_square(m),
    ensures
        det_seq(m) == m[0][0].mul_spec(
            m[1][1].mul_spec(m[2][2]).sub_spec(m[1][2].mul_spec(m[2][1])),
        ).sub_spec(
            m[0][1].mul_spec(m[1][0].mul_spec(m[2][2]).sub_spec(m[1][2].mul_spec(m[2][0]))),
        ).add_spec(m[0][2].mul_spec(m[1][0].mul_spec(m[2][1]).sub_spec(m[1][1].mul_spec(m[2][0])))),
{
    reveal_with_fuel(det_seq, 2);
    reveal_with_fuel(det_expand, 4);
    let m0 = minor_seq(m, 0, 0);
    let m1 = minor_seq(m, 0, 1);
    let m2 = minor_seq(m, 0, 2);
    assert(m0.len() == 2 && is_square(m0));
    assert(m0[0][0] == m[1][1] && m0[0][1] == m[1][2] && m0[1][0] == m[2][1] && m0[1][1]
        == m[2][2]);
    lemma_det2(m0);
    assert(m1.len() == 2 && is_square(m1));
    assert(m1[0][0] == m[1][0] && m1[0][1] == m[1][2] && m1[1][0] == m[2][0] && m1[1][1]
        == m[2][2]);
    lemma_det2(m1);
    assert(m2.len() == 2 && is_square(m2));
    assert(m2[0][0] == m[1][0] && m2[0][1] == m[1][1] && m2[1][0] == m[2][0] && m2[1][1]
        == m[2][1]);
    lemma_det2(m2);
    assert(det_seq(m) == det_expand(m, 3));
    assert(det_expand(m, 1) == m[0][0].mul_spec(det_seq(m0)));
    assert(det_expand(m, 2) == det_expand(m, 1).sub_spec(m[0][1].mul_spec(det_seq(m1))));
    assert(det_expand(m, 3) == det_expand(m, 2).add_spec(m[0][2].mul_spec(det_seq(m2))));
}

/// The determinant is invariant under transposition, for matrices of
/// dimension up to three.
pub proof fn lemma_det_transpose_small<T: RingLaws>(m: Seq<Seq<T>>)
    requires
        is_square(m),
        m.len() <= 3,
    ensures
        det_seq(transpose_seq(m)) == det_seq(m),
{
    let t = transpose_seq(m);
    assert(t.len() == m.len());
    assert(is_square(t));
    if m.len() == 0 {
        reveal_with_fuel(det_seq, 1);
    } else if m.len() == 1 {
        reveal_with_fuel(det_seq, 1);
        assert(t[0][0] == m[0][0]);
    } else if m.len() == 2 {
        lemma_det2(m);
        lemma_det2(t);
        assert(t[0][0] == m[0][0] && t[0][1] == m[1][0] && t[1][0] == m[0][1] && t[1][1]
            == m[1][1]);
        T::law_mul_comm(m[1][0], m[0][1]);
    } else {
        lemma_det3(m);
        lemma_det3(t);
        let a = m[0][0];
        let b = m[0][1];
        let c = m[0][2];
        let d = m[1][0];
        let e = m[1][1];
        let f = m[1][2];
        let g = m[2][0];
        let h = m[2][1];
        let k = m[2][2];
        assert(t[0][0] == a && t[0][1] == d && t[0][2] == g);
        assert(t[1][0] == b && t[1][1] == e && t[1][2] == h);
        assert(t[2][0] == c && t[2][1] == f && t[2][2] == k);
        // det(t) == a*(e*k - h*f) - d*(b*k - h*c) + g*(b*f - e*c)
        // det(m) == a*(e*k - f*h) - b*(d*k - f*g) + c*(d*h - e*g)
        T::law_mul_comm(h, f);
        T::law_mul_distrib_sub(d, b.mul_spec(k), h.mul_spec(c));
        T::law_mul_distrib_sub(g, b.mul_spec(f), e.mul_spec(c));
        T::law_mul_distrib_sub(b, d.mul_spec(k), f.mul_spec(g));
        T::law_mul_distrib_sub(c, d.mul_spec(h), e.mul_spec(g));
        // d*(b*k) == b*(d*k)
        lemma_mul_shuffle(d, b, k);
        // d*(h*c) == c*(d*h)
        lemma_mul_rotate(d, h, c);
        // g*(b*f) == b*(f*g)
        lemma_mul_rotate(b, f, g);
        // g*(e*c) == c*(e*g)
        lemma_mul_rotate(g, e, c);
        T::law_mul_comm(g, e);
        let x = a.mul_spec(e.mul_spec(k).sub_spec(f.mul_spec(h)));
        let p = b.mul_spec(d.mul_spec(k));
        let q = b.mul_spec(f.mul_spec(g));
        let r = c.mul_spec(d.mul_spec(h));
        let s = c.mul_spec(e.mul_spec(g));
        lemma_add_shuffle(x, p, r, q, s);
    }
}

/// One entry of the product of the identity with itself: `zero` until the
/// diagonal term has been added, the identity entry afterwards.
proof fn lemma_identity_entry<T: RingLaws>(n: nat, i: int, j: int, k: int)
    requires
        0 <= i < n,
        0 <= j < n,
        0 <= k <= n,
    ensures
        mm_entry(identity_seq::<T>(n), identity_seq::<T>(n), i, j, k) == if k > i {
            identity_seq::<T>(n)[i][j]
        } else {
            T::zero_spec()
        },
    decreases k,
{
    let id = identity_seq::<T>(n);
    if k == 1 {
        if i == 0 {
            T::law_mul_one(id[0][j]);
        } else {
            T::law_mul_zero(id[0][j]);
        }
    } else if k > 1 {
        lemma_identity_entry::<T>(n, i, j, k - 1);
        if k - 1 == i {
            T::law_mul_one(id[i][j]);
            T::law_add_zero(id[i][j]);
        } else {
            T::law_mul_zero(id[k - 1][j]);
            T::law_add_zero(mm_entry(id, id, i, j, k - 1));
        }
    }
}

/// The identity matrix times itself is the identity matrix, for every
/// dimension.
pub proof fn lemma_identity_mul_identity<T: RingLaws>(n: nat)
    ensures
        matmul_seq(identity_seq::<T>(n), identity_seq::<T>(n), n, n, n) == identity_seq::<T>(n),
{
    let id = identity_seq::<T>(n);
    assert forall|i: int, j: int| 0 <= i < n && 0 <= j < n implies mm_entry(id, id, i, j, n as int)
        == id[i][j] by {
        lemma_identity_entry::<T>(n, i, j, n as int);
    }
    assert(matmul_seq(id, id, n, n, n) =~~= id);
}

/// The cross product is anti-commutative: `cross(a, b)` is the
/// componentwise negation of `cross(b, a)`.
pub proof fn lemma_cross_antisymmetric<T: RingLaws>(a: Vector3<T>, b: Vector3<T>)
    ensures
        a.cross_spec(b).coords() == vneg_seq(b.cross_spec(a).coords()),
{
    T::law_mul_comm(b.y, a.z);
    T::law_mul_comm(b.z, a.y);
    T::law_mul_comm(b.z, a.x);
    T::law_mul_comm(b.x, a.z);
    T::law_mul_comm(b.x, a.y);
    T::law_mul_comm(b.y, a.x);
    T::law_sub_neg(b.y.mul_spec(a.z), b.z.mul_spec(a.y));
    T::law_sub_neg(b.z.mul_spec(a.x), b.x.mul_spec(a.z));
    T::law_sub_neg(b.x.mul_spec(a.y), b.y.mul_spec(a.x));
    assert(a.cross_spec(b).coords() =~= vneg_seq(b.cross_spec(a).coords()));
}

} // verus!
