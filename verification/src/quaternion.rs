//! The quaternion value type, its mathematical model, and its operations.

use vstd::prelude::*;

verus! {

/// Mathematical model of a quaternion `r + x*i + y*j + z*k` over the
/// unbounded integers. Contracts and laws are stated over this model.
pub ghost struct QuatView {
    pub r: int,
    pub x: int,
    pub y: int,
    pub z: int,
}

/// The additive identity `0 + 0i + 0j + 0k`.
pub open spec fn q_zero() -> QuatView {
    QuatView { r: 0, x: 0, y: 0, z: 0 }
}

/// The multiplicative identity `1 + 0i + 0j + 0k`.
pub open spec fn q_one() -> QuatView {
    QuatView { r: 1, x: 0, y: 0, z: 0 }
}

/// Componentwise sum.
pub open spec fn q_add(a: QuatView, b: QuatView) -> QuatView {
    QuatView { r: a.r + b.r, x: a.x + b.x, y: a.y + b.y, z: a.z + b.z }
}

/// Componentwise difference.
pub open spec fn q_sub(a: QuatView, b: QuatView) -> QuatView {
    QuatView { r: a.r - b.r, x: a.x - b.x, y: a.y - b.y, z: a.z - b.z }
}

/// Conjugate: the real part is kept, the imaginary parts are negated.
pub open spec fn q_conj(a: QuatView) -> QuatView {
    QuatView { r: a.r, x: -a.x, y: -a.y, z: -a.z }
}

/// Every component scaled by the real scalar `s`.
pub open spec fn q_scale(a: QuatView, s: int) -> QuatView {
    QuatView { r: a.r * s, x: a.x * s, y: a.y * s, z: a.z * s }
}

/// The Hamilton (Grassman) product, the defining non-commutative
/// multiplication of the quaternion algebra.
pub open spec fn q_mul(a: QuatView, b: QuatView) -> QuatView {
    QuatView {
        r: a.r * b.r - a.x * b.x - a.y * b.y - a.z * b.z,
        x: a.r * b.x + a.x * b.r + a.y * b.z - a.z * b.y,
        y: a.r * b.y - a.x * b.z + a.y * b.r + a.z * b.x,
        z: a.r * b.z + a.x * b.y - a.y * b.x + a.z * b.r,
    }
}

/// Half the commutator `(a*b - b*a) / 2`. The real part of a commutator is
/// always zero and its imaginary parts are always even, so this is exact over
/// the integers; `laws::lemma_cross_is_half_commutator` proves the relation.
pub open spec fn q_cross(a: QuatView, b: QuatView) -> QuatView {
    QuatView {
        r: 0,
        x: a.y * b.z - a.z * b.y,
        y: a.z * b.x - a.x * b.z,
        z: a.x * b.y - a.y * b.x,
    }
}

/// Two quaternions commute under the Hamilton product exactly when their
/// commutator vanishes.
pub open spec fn q_exchangeable(a: QuatView, b: QuatView) -> bool {
    q_cross(a, b) == q_zero()
}

/// `v` can be carried by an `i64` component.
pub open spec fn fits_i64(v: int) -> bool {
    i64::MIN as int <= v <= i64::MAX as int
}

/// Every component of `v` can be carried by an `i64`.
pub open spec fn quat_fits_i64(v: QuatView) -> bool {
    fits_i64(v.r) && fits_i64(v.x) && fits_i64(v.y) && fits_i64(v.z)
}

/// Every component of `v` lies within `2^62` of zero, which leaves enough
/// headroom for products of two components and sums of four such products to
/// be computed exactly in 128-bit intermediates.
pub open spec fn mul_operand_in_range(v: QuatView) -> bool {
    &&& -0x4000_0000_0000_0000 <= v.r <= 0x4000_0000_0000_0000
    &&& -0x4000_0000_0000_0000 <= v.x <= 0x4000_0000_0000_0000
    &&& -0x4000_0000_0000_0000 <= v.y <= 0x4000_0000_0000_0000
    &&& -0x4000_0000_0000_0000 <= v.z <= 0x4000_0000_0000_0000
}

/// A product of two factors bounded by `bound` is bounded by `bound * bound`.
proof fn lemma_bounded_mul(a: int, b: int, bound: int) by (nonlinear_arith)
    requires
        0 <= bound,
        -bound <= a <= bound,
        -bound <= b <= bound,
    ensures
        -(bound * bound) <= a * b <= bound * bound,
{
}

/// Bounds each of the sixteen componentwise products that the Hamilton
/// product of `a` and `b` is built from: with both operands within `2^62`,
/// every product lies within `2^124`.
proof fn lemma_mul_products_bounded(a: QuatView, b: QuatView)
    requires
        mul_operand_in_range(a),
        mul_operand_in_range(b),
    ensures
        forall|p: int, q: int|
            (p == a.r || p == a.x || p == a.y || p == a.z) && (q == b.r || q == b.x || q == b.y
                || q == b.z) ==> -0x1000_0000_0000_0000_0000_0000_0000_0000 <= #[trigger] (p * q)
                <= 0x1000_0000_0000_0000_0000_0000_0000_0000,
{
    assert forall|p: int, q: int|
        (p == a.r || p == a.x || p == a.y || p == a.z) && (q == b.r || q == b.x || q == b.y || q
            == b.z) implies -0x1000_0000_0000_0000_0000_0000_0000_0000 <= #[trigger] (p * q)
        <= 0x1000_0000_0000_0000_0000_0000_0000_0000 by {
        lemma_bounded_mul(p, q, 0x4000_0000_0000_0000);
    }
}

/// A product of two `i64`-range factors lies within `2^126` of zero.
proof fn lemma_i64_mul_in_range(a: int, b: int)
    requires
        fits_i64(a),
        fits_i64(b),
    ensures
        -0x4000_0000_0000_0000_0000_0000_0000_0000 <= a * b
            <= 0x4000_0000_0000_0000_0000_0000_0000_0000,
{
    lemma_bounded_mul(a, b, 0x8000_0000_0000_0000);
}

/// A quaternion of exact 64-bit integer components `real + imag_x*i +
/// imag_y*j + imag_z*k`. Values are immutable: every operation returns a new
/// quaternion, and equality is exact componentwise comparison.
#[derive(Clone, Copy, Debug, PartialEq, Eq, Structural, PartialOrd)]
pub struct Quaternion {
    pub real: i64,
    pub imag_x: i64,
    pub imag_y: i64,
    pub imag_z: i64,
}

impl View for Quaternion {
    type V = QuatView;

    open spec fn view(&self) -> QuatView {
        QuatView {
            r: self.real as int,
            x: self.imag_x as int,
            y: self.imag_y as int,
            z: self.imag_z as int,
        }
    }
}

impl Quaternion {
    /// Builds the quaternion `alpha + beta*i + charlie*j + delta*k`. Any four
    /// components form a valid quaternion: there is no validation and no
    /// failure mode.
    pub fn new(alpha: i64, beta: i64, charlie: i64, delta: i64) -> (q: Quaternion)
        ensures
            q@ == (QuatView { r: alpha as int, x: beta as int, y: charlie as int, z: delta as int }),
    {
        Quaternion { real: alpha, imag_x: beta, imag_y: charlie, imag_z: delta }
    }

    /// The conjugate: the real part is kept, the three imaginary parts are
    /// negated. The precondition only rules out negating `i64::MIN`.
    pub fn conj(&self) -> (r: Quaternion)
        requires
            quat_fits_i64(q_conj(self@)),
        ensures
            r@ == q_conj(self@),
    {
        Quaternion {
            real: self.real,
            imag_x: -self.imag_x,
            imag_y: -self.imag_y,
            imag_z: -self.imag_z,
        }
    }

    /// The Hamilton (Grassman) product of `delta` and `echo`, the defining
    /// non-commutative multiplication of the algebra. The preconditions are
    /// machine limits only: the operands need the headroom that exact 128-bit
    /// intermediates require, and the exact result must fit the component
    /// type.
    pub fn grassman_product(delta: Quaternion, echo: Quaternion) -> (r: Quaternion)
        requires
            mul_operand_in_range(delta@),
            mul_operand_in_range(echo@),
            quat_fits_i64(q_mul(delta@, echo@)),
        ensures
            r@ == q_mul(delta@, echo@),
    {
        proof {
            lemma_mul_products_bounded(delta@, echo@);
        }
        let ar: i128 = delta.real as i128;
        let ax: i128 = delta.imag_x as i128;
        let ay: i128 = delta.imag_y as i128;
        let az: i128 = delta.imag_z as i128;
        let br: i128 = echo.real as i128;
        let bx: i128 = echo.imag_x as i128;
        let by: i128 = echo.imag_y as i128;
        let bz: i128 = echo.imag_z as i128;
        let rr: i128 = ar * br - ax * bx - ay * by - az * bz;
        let rx: i128 = ar * bx + ax * br + ay * bz - az * by;
        let ry: i128 = ar * by - ax * bz + ay * br + az * bx;
        let rz: i128 = ar * bz + ax * by - ay * bx + az * br;
        Quaternion { real: rr as i64, imag_x: rx as i64, imag_y: ry as i64, imag_z: rz as i64 }
    }

    /// Half the commutator, `0.5 * (delta*echo - echo*delta)`: the real part
    /// of a commutator is always zero and its imaginary parts are always
    /// even, so the halving is exact. For pure-imaginary operands this is the
    /// vector cross product embedded in quaternion form. The precondition
    /// only asks that the exact result fit the component type.
    pub fn cross_product(delta: Quaternion, echo: Quaternion) -> (r: Quaternion)
        requires
            quat_fits_i64(q_cross(delta@, echo@)),
        ensures
            r@ == q_cross(delta@, echo@),
    {
        proof {
            lemma_i64_mul_in_range(delta@.y as int, echo@.z as int);
            lemma_i64_mul_in_range(delta@.z as int, echo@.y as int);
            lemma_i64_mul_in_range(delta@.z as int, echo@.x as int);
            lemma_i64_mul_in_range(delta@.x as int, echo@.z as int);
            lemma_i64_mul_in_range(delta@.x as int, echo@.y as int);
            lemma_i64_mul_in_range(delta@.y as int, echo@.x as int);
        }
        let ax: i128 = delta.imag_x as i128;
        let ay: i128 = delta.imag_y as i128;
        let az: i128 = delta.imag_z as i128;
        let bx: i128 = echo.imag_x as i128;
        let by: i128 = echo.imag_y as i128;
        let bz: i128 = echo.imag_z as i128;
        let cx: i128 = ay * bz - az * by;
        let cy: i128 = az * bx - ax * bz;
        let cz: i128 = ax * by - ay * bx;
        Quaternion { real: 0, imag_x: cx as i64, imag_y: cy as i64, imag_z: cz as i64 }
    }

    /// The real (scalar) component.
    pub fn real_part(&self) -> (r: i64)
        ensures
            r as int == self@.r,
    {
        self.real
    }

    /// The three imaginary components, in the order `(x, y, z)`.
    pub fn imag(&self) -> (v: Vec<i64>)
        ensures
            v@.len() == 3,
            v@[0] as int == self@.x,
            v@[1] as int == self@.y,
            v@[2] as int == self@.z,
    {
        let mut v: Vec<i64> = Vec::new();
        v.push(self.imag_x);
        v.push(self.imag_y);
        v.push(self.imag_z);
        v
    }

    /// Whether `self` and `alpha` commute under the Hamilton product, that
    /// is, whether their commutator is the zero quaternion. Defined for every
    /// pair of quaternions: the comparison works on exact 128-bit products,
    /// so no precondition is needed.
    pub fn exchangeable(&self, alpha: &Quaternion) -> (r: bool)
        ensures
            r == q_exchangeable(self@, alpha@),
    {
        proof {
            lemma_i64_mul_in_range(self@.y as int, alpha@.z as int);
            lemma_i64_mul_in_range(self@.z as int, alpha@.y as int);
            lemma_i64_mul_in_range(self@.z as int, alpha@.x as int);
            lemma_i64_mul_in_range(self@.x as int, alpha@.z as int);
            lemma_i64_mul_in_range(self@.x as int, alpha@.y as int);
            lemma_i64_mul_in_range(self@.y as int, alpha@.x as int);
        }
        let ax: i128 = self.imag_x as i128;
        let ay: i128 = self.imag_y as i128;
        let az: i128 = self.imag_z as i128;
        let bx: i128 = alpha.imag_x as i128;
        let by: i128 = alpha.imag_y as i128;
        let bz: i128 = alpha.imag_z as i128;
        ay * bz == az * by && az * bx == ax * bz && ax * by == ay * bx
    }
}

/// The quaternion whose components carry the model `v`; exact whenever `v`
/// fits the component type.
pub open spec fn quat_of(v: QuatView) -> Quaternion {
    Quaternion { real: v.r as i64, imag_x: v.x as i64, imag_y: v.y as i64, imag_z: v.z as i64 }
}

impl vstd::std_specs::ops::AddSpecImpl for Quaternion {
    open spec fn obeys_add_spec() -> bool {
        true
    }

    open spec fn add_req(self, rhs: Quaternion) -> bool {
        quat_fits_i64(q_add(self@, rhs@))
    }

    open spec fn add_spec(self, rhs: Quaternion) -> Self::Output {
        quat_of(q_add(self@, rhs@))
    }
}

impl core::ops::Add for Quaternion {
    type Output = Quaternion;

    /// Componentwise sum; the precondition asks only that each component sum
    /// fit the component type.
    fn add(self, alpha: Quaternion) -> (r: Quaternion)
        ensures
            r@ == q_add(self@, alpha@),
    {
        let rr: i128 = self.real as i128 + alpha.real as i128;
        let rx: i128 = self.imag_x as i128 + alpha.imag_x as i128;
        let ry: i128 = self.imag_y as i128 + alpha.imag_y as i128;
        let rz: i128 = self.imag_z as i128 + alpha.imag_z as i128;
        Quaternion { real: rr as i64, imag_x: rx as i64, imag_y: ry as i64, imag_z: rz as i64 }
    }
}

impl vstd::std_specs::ops::SubSpecImpl for Quaternion {
    open spec fn obeys_sub_spec() -> bool {
        true
    }

    open spec fn sub_req(self, rhs: Quaternion) -> bool {
        quat_fits_i64(q_sub(self@, rhs@))
    }

    open spec fn sub_spec(self, rhs: Quaternion) -> Self::Output {
        quat_of(q_sub(self@, rhs@))
    }
}

impl core::ops::Sub for Quaternion {
    type Output = Quaternion;

    /// Componentwise difference; the precondition asks only that each
    /// component difference fit the component type.
    fn sub(self, alpha: Quaternion) -> (r: Quaternion)
        ensures
            r@ == q_sub(self@, alpha@),
    {
        let rr: i128 = self.real as i128 - alpha.real as i128;
        let rx: i128 = self.imag_x as i128 - alpha.imag_x as i128;
        let ry: i128 = self.imag_y as i128 - alpha.imag_y as i128;
        let rz: i128 = self.imag_z as i128 - alpha.imag_z as i128;
        Quaternion { real: rr as i64, imag_x: rx as i64, imag_y: ry as i64, imag_z: rz as i64 }
    }
}

impl vstd::std_specs::ops::MulSpecImpl for Quaternion {
    open spec fn obeys_mul_spec() -> bool {
        true
    }

    open spec fn mul_req(self, rhs: Quaternion) -> bool {
        mul_operand_in_range(self@) && mul_operand_in_range(rhs@) && quat_fits_i64(
            q_mul(self@, rhs@),
        )
    }

    open spec fn mul_spec(self, rhs: Quaternion) -> Self::Output {
        quat_of(q_mul(self@, rhs@))
    }
}

impl core::ops::Mul for Quaternion {
    type Output = Quaternion;

    /// The Hamilton product, exposed as the multiplication operator;
    /// equivalent to [`Quaternion::grassman_product`].
    fn mul(self, alpha: Quaternion) -> (r: Quaternion)
        ensures
            r@ == q_mul(self@, alpha@),
    {
        Quaternion::grassman_product(self, alpha)
    }
}

impl vstd::std_specs::ops::MulSpecImpl<i64> for Quaternion {
    open spec fn obeys_mul_spec() -> bool {
        true
    }

    open spec fn mul_req(self, rhs: i64) -> bool {
        quat_fits_i64(q_scale(self@, rhs as int))
    }

    open spec fn mul_spec(self, rhs: i64) -> Self::Output {
        quat_of(q_scale(self@, rhs as int))
    }
}

impl core::ops::Mul<i64> for Quaternion {
    type Output = Quaternion;

    /// Scalar scaling: every component multiplied by `alpha`. The
    /// precondition asks only that the exact result fit the component type.
    fn mul(self, alpha: i64) -> (r: Quaternion)
        ensures
            r@ == q_scale(self@, alpha as int),
    {
        proof {
            lemma_i64_mul_in_range(self@.r as int, alpha as int);
            lemma_i64_mul_in_range(self@.x as int, alpha as int);
            lemma_i64_mul_in_range(self@.y as int, alpha as int);
            lemma_i64_mul_in_range(self@.z as int, alpha as int);
        }
        let s: i128 = alpha as i128;
        let rr: i128 = self.real as i128 * s;
        let rx: i128 = self.imag_x as i128 * s;
        let ry: i128 = self.imag_y as i128 * s;
        let rz: i128 = self.imag_z as i128 * s;
        Quaternion { real: rr as i64, imag_x: rx as i64, imag_y: ry as i64, imag_z: rz as i64 }
    }
}

} // verus!
