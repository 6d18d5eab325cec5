//! The algebraic laws of the quaternion type, proved over its model.

use vstd::prelude::*;

use crate::quaternion::q_add;
use crate::quaternion::q_conj;
use crate::quaternion::q_cross;
use crate::quaternion::q_exchangeable;
use crate::quaternion::q_mul;
use crate::quaternion::q_one;
use crate::quaternion::q_scale;
use crate::quaternion::q_sub;
use crate::quaternion::q_zero;
use crate::quaternion::QuatView;

verus! {

/// Adding the zero quaternion changes nothing, and subtracting a quaternion
/// from itself yields the zero quaternion.
pub proof fn lemma_additive_identity(q: QuatView)
    ensures
        q_add(q, q_zero()) == q,
        q_sub(q, q) == q_zero(),
{
}

/// Conjugation is an involution: conjugating twice gives the original
/// quaternion back.
pub proof fn lemma_conj_involution(q: QuatView)
    ensures
        q_conj(q_conj(q)) == q,
{
}

/// The Hamilton product is not commutative: there are quaternions whose
/// products differ in the two orders. The witnesses are the basis elements
/// `i` and `j`, with `i*j == k` but `j*i == -k`.
pub proof fn lemma_product_not_commutative()
    ensures
        exists|a: QuatView, b: QuatView| q_mul(a, b) != q_mul(b, a),
{
    let qi = QuatView { r: 0, x: 1, y: 0, z: 0 };
    let qj = QuatView { r: 0, x: 0, y: 1, z: 0 };
    assert(q_mul(qi, qj).z == 1);
    assert(q_mul(qj, qi).z == -1);
    assert(q_mul(qi, qj) != q_mul(qj, qi));
}

/// Scaling by the scalar one, and multiplying by the quaternion one, both
/// leave a quaternion unchanged, on either side.
pub proof fn lemma_multiplicative_identity(q: QuatView)
    ensures
        q_scale(q, 1) == q,
        q_mul(q, q_one()) == q,
        q_mul(q_one(), q) == q,
{
}

/// Adding a quaternion and subtracting it again gives the original back.
pub proof fn lemma_add_sub_round_trip(q1: QuatView, q2: QuatView)
    ensures
        q_sub(q_add(q1, q2), q2) == q1,
{
}

/// The Hamilton product distributes over addition on the left.
pub proof fn lemma_mul_distributes_over_add(a: QuatView, b: QuatView, c: QuatView)
    ensures
        q_mul(a, q_add(b, c)) == q_add(q_mul(a, b), q_mul(a, c)),
{
    lemma_distribute(a.r, b.r, c.r);
    lemma_distribute(a.r, b.x, c.x);
    lemma_distribute(a.r, b.y, c.y);
    lemma_distribute(a.r, b.z, c.z);
    lemma_distribute(a.x, b.r, c.r);
    lemma_distribute(a.x, b.x, c.x);
    lemma_distribute(a.x, b.y, c.y);
    lemma_distribute(a.x, b.z, c.z);
    lemma_distribute(a.y, b.r, c.r);
    lemma_distribute(a.y, b.x, c.x);
    lemma_distribute(a.y, b.y, c.y);
    lemma_distribute(a.y, b.z, c.z);
    lemma_distribute(a.z, b.r, c.r);
    lemma_distribute(a.z, b.x, c.x);
    lemma_distribute(a.z, b.y, c.y);
    lemma_distribute(a.z, b.z, c.z);
}

/// Multiplication of integers distributes over addition.
proof fn lemma_distribute(x: int, y: int, z: int) by (nonlinear_arith)
    ensures
        x * (y + z) == x * y + x * z,
{
}

/// The cross product is half the commutator: doubling it gives exactly
/// `a*b - b*a`. In particular the commutator's real part is zero and its
/// imaginary parts are even, so the halving loses nothing.
pub proof fn lemma_cross_is_half_commutator(a: QuatView, b: QuatView)
    ensures
        q_scale(q_cross(a, b), 2) == q_sub(q_mul(a, b), q_mul(b, a)),
{
    assert((a.y * b.z - a.z * b.y) * 2 == (a.r * b.x + a.x * b.r + a.y * b.z - a.z * b.y) - (b.r
        * a.x + b.x * a.r + b.y * a.z - b.z * a.y)) by (nonlinear_arith);
    assert((a.z * b.x - a.x * b.z) * 2 == (a.r * b.y - a.x * b.z + a.y * b.r + a.z * b.x) - (b.r
        * a.y - b.x * a.z + b.y * a.r + b.z * a.x)) by (nonlinear_arith);
    assert((a.x * b.y - a.y * b.x) * 2 == (a.r * b.z + a.x * b.y - a.y * b.x + a.z * b.r) - (b.r
        * a.z + b.x * a.y - b.y * a.x + b.z * a.r)) by (nonlinear_arith);
    assert(a.r * b.r - a.x * b.x - a.y * b.y - a.z * b.z == b.r * a.r - b.x * a.x - b.y * a.y - b.z
        * a.z) by (nonlinear_arith);
}

/// Every quaternion commutes with itself.
pub proof fn lemma_self_exchangeable(q: QuatView)
    ensures
        q_exchangeable(q, q),
{
    assert(q.y * q.z - q.z * q.y == 0) by (nonlinear_arith);
    assert(q.z * q.x - q.x * q.z == 0) by (nonlinear_arith);
    assert(q.x * q.y - q.y * q.x == 0) by (nonlinear_arith);
}

/// A quaternion commutes with every real scalar multiple of itself.
pub proof fn lemma_scalar_multiple_exchangeable(q: QuatView, c: int)
    ensures
        q_exchangeable(q, q_scale(q, c)),
{
    assert(q.y * (q.z * c) - q.z * (q.y * c) == 0) by (nonlinear_arith);
    assert(q.z * (q.x * c) - q.x * (q.z * c) == 0) by (nonlinear_arith);
    assert(q.x * (q.y * c) - q.y * (q.x * c) == 0) by (nonlinear_arith);
}

} // verus!

