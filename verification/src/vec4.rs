//! A generic four-component vector type with component-wise arithmetic,
//! scalar broadcast operations, identity elements and a strict
//! all-or-nothing partial order.

use vstd::prelude::*;

use crate::scalar::{Scalar, trunc_div};

verus! {

use core::cmp::Ordering;
use vstd::std_specs::cmp::PartialOrdSpec;

/// The mathematical model of a four-component vector: the four
/// integers its components stand for.
#[verifier::ext_equal]
pub ghost struct V4 {
    pub x: int,
    pub y: int,
    pub z: int,
    pub w: int,
}

/// Clamping of an integer into `[lo, hi]`: the lower bound is applied
/// first, so it prevails when the bounds are out of order.
pub open spec fn clamp_int(v: int, lo: int, hi: int) -> int {
    if v < lo {
        lo
    } else if v > hi {
        hi
    } else {
        v
    }
}

impl V4 {
    /// The model whose components are all zero.
    pub open spec fn all_zero() -> V4 {
        V4 { x: 0, y: 0, z: 0, w: 0 }
    }

    /// The model whose components are all one.
    pub open spec fn all_one() -> V4 {
        V4 { x: 1, y: 1, z: 1, w: 1 }
    }

    /// Component-wise sum.
    pub open spec fn v_add(self, o: V4) -> V4 {
        V4 { x: self.x + o.x, y: self.y + o.y, z: self.z + o.z, w: self.w + o.w }
    }

    /// Component-wise difference.
    pub open spec fn v_sub(self, o: V4) -> V4 {
        V4 { x: self.x - o.x, y: self.y - o.y, z: self.z - o.z, w: self.w - o.w }
    }

    /// Component-wise product.
    pub open spec fn v_mul(self, o: V4) -> V4 {
        V4 { x: self.x * o.x, y: self.y * o.y, z: self.z * o.z, w: self.w * o.w }
    }

    /// Component-wise quotient, each rounded toward zero.
    pub open spec fn v_div(self, o: V4) -> V4 {
        V4 {
            x: trunc_div(self.x, o.x),
            y: trunc_div(self.y, o.y),
            z: trunc_div(self.z, o.z),
            w: trunc_div(self.w, o.w),
        }
    }

    /// Component-wise negation.
    pub open spec fn v_neg(self) -> V4 {
        V4 { x: -self.x, y: -self.y, z: -self.z, w: -self.w }
    }

    /// The same scalar added to every component.
    pub open spec fn v_add_scalar(self, s: int) -> V4 {
        V4 { x: self.x + s, y: self.y + s, z: self.z + s, w: self.w + s }
    }

    /// The same scalar subtracted from every component.
    pub open spec fn v_sub_scalar(self, s: int) -> V4 {
        V4 { x: self.x - s, y: self.y - s, z: self.z - s, w: self.w - s }
    }

    /// Every component multiplied by the same scalar.
    pub open spec fn v_mul_scalar(self, s: int) -> V4 {
        V4 { x: self.x * s, y: self.y * s, z: self.z * s, w: self.w * s }
    }

    /// Every component divided by the same scalar, rounded toward zero.
    pub open spec fn v_div_scalar(self, s: int) -> V4 {
        V4 {
            x: trunc_div(self.x, s),
            y: trunc_div(self.y, s),
            z: trunc_div(self.z, s),
            w: trunc_div(self.w, s),
        }
    }

    /// Every component clamped into `[lo, hi]`.
    pub open spec fn v_clamp(self, lo: int, hi: int) -> V4 {
        V4 {
            x: clamp_int(self.x, lo, hi),
            y: clamp_int(self.y, lo, hi),
            z: clamp_int(self.z, lo, hi),
            w: clamp_int(self.w, lo, hi),
        }
    }

    /// The sum of the component-wise products.
    pub open spec fn v_dot(self, o: V4) -> int {
        self.x * o.x + self.y * o.y + self.z * o.z + self.w * o.w
    }

    /// All four components strictly below the other's.
    pub open spec fn all_lt(self, o: V4) -> bool {
        self.x < o.x && self.y < o.y && self.z < o.z && self.w < o.w
    }

    /// At least one component strictly below the other's.
    pub open spec fn any_lt(self, o: V4) -> bool {
        self.x < o.x || self.y < o.y || self.z < o.z || self.w < o.w
    }

    /// At least one component strictly above the other's.
    pub open spec fn any_gt(self, o: V4) -> bool {
        self.x > o.x || self.y > o.y || self.z > o.z || self.w > o.w
    }

    /// No component is zero.
    pub open spec fn all_nonzero(self) -> bool {
        self.x != 0 && self.y != 0 && self.z != 0 && self.w != 0
    }
}

/// Vec4 is a generic four-component vector type.
#[derive(Clone, Copy, Debug, PartialEq, Eq, Structural)]
#[verifier::ext_equal]
pub struct Vec4<T> {
    pub x: T,
    pub y: T,
    pub z: T,
    pub w: T,
}

impl<T> Vec4<T> {
    /// new returns a new vector with the given components.
    pub fn new(x: T, y: T, z: T, w: T) -> (r: Self)
        ensures
            r == (Vec4 { x, y, z, w }),
    {
        Vec4 { x, y, z, w }
    }
}

impl<T: Scalar> Vec4<T> {
    /// The mathematical model of this vector.
    pub open spec fn model(self) -> V4 {
        V4 { x: self.x.sval(), y: self.y.sval(), z: self.z.sval(), w: self.w.sval() }
    }

    /// Whether every component of a model is representable in `T`.
    pub open spec fn m_fits(m: V4) -> bool {
        T::fits(m.x) && T::fits(m.y) && T::fits(m.z) && T::fits(m.w)
    }

    /// zero returns the vector whose every component is the additive
    /// identity.
    pub fn zero() -> (r: Self)
        ensures
            r.model() == V4::all_zero(),
    {
        Vec4 { x: T::zero_val(), y: T::zero_val(), z: T::zero_val(), w: T::zero_val() }
    }

    /// one returns the vector whose every component is the
    /// multiplicative identity.
    pub fn one() -> (r: Self)
        ensures
            r.model() == V4::all_one(),
    {
        Vec4 { x: T::one_val(), y: T::one_val(), z: T::one_val(), w: T::one_val() }
    }

    /// is_zero tells if every component is the additive identity.
    pub fn is_zero(&self) -> (r: bool)
        ensures
            r == (self.model() == V4::all_zero()),
    {
        let z = T::zero_val();
        let r = self.x.eq_val(z) && self.y.eq_val(z) && self.z.eq_val(z) && self.w.eq_val(z);
        proof {
            if r {
                assert(self.model() =~= V4::all_zero());
            }
        }
        r
    }

    /// add performs component-wise addition of two vectors.
    pub fn add(self, rhs: Self) -> (r: Self)
        requires
            Self::m_fits(self.model().v_add(rhs.model())),
        ensures
            r.model() == self.model().v_add(rhs.model()),
    {
        Vec4 {
            x: self.x.add_val(rhs.x),
            y: self.y.add_val(rhs.y),
            z: self.z.add_val(rhs.z),
            w: self.w.add_val(rhs.w),
        }
    }

    /// sub performs component-wise subtraction of two vectors.
    pub fn sub(self, rhs: Self) -> (r: Self)
        requires
            Self::m_fits(self.model().v_sub(rhs.model())),
        ensures
            r.model() == self.model().v_sub(rhs.model()),
    {
        Vec4 {
            x: self.x.sub_val(rhs.x),
            y: self.y.sub_val(rhs.y),
            z: self.z.sub_val(rhs.z),
            w: self.w.sub_val(rhs.w),
        }
    }

    /// mul performs component-wise multiplication of two vectors.
    pub fn mul(self, rhs: Self) -> (r: Self)
        requires
            Self::m_fits(self.model().v_mul(rhs.model())),
        ensures
            r.model() == self.model().v_mul(rhs.model()),
    {
        Vec4 {
            x: self.x.mul_val(rhs.x),
            y: self.y.mul_val(rhs.y),
            z: self.z.mul_val(rhs.z),
            w: self.w.mul_val(rhs.w),
        }
    }

    /// div performs component-wise division of two vectors, each
    /// quotient rounded toward zero.
    pub fn div(self, rhs: Self) -> (r: Self)
        requires
            rhs.model().all_nonzero(),
            Self::m_fits(self.model().v_div(rhs.model())),
        ensures
            r.model() == self.model().v_div(rhs.model()),
    {
        Vec4 {
            x: self.x.div_val(rhs.x),
            y: self.y.div_val(rhs.y),
            z: self.z.div_val(rhs.z),
            w: self.w.div_val(rhs.w),
        }
    }

    /// neg returns the component-wise negation of the vector.
    pub fn neg(self) -> (r: Self)
        requires
            Self::m_fits(self.model().v_neg()),
        ensures
            r.model() == self.model().v_neg(),
    {
        Vec4 { x: self.x.neg_val(), y: self.y.neg_val(), z: self.z.neg_val(), w: self.w.neg_val() }
    }

    /// add_scalar adds the same scalar to every component.
    pub fn add_scalar(self, rhs: T) -> (r: Self)
        requires
            Self::m_fits(self.model().v_add_scalar(rhs.sval())),
        ensures
            r.model() == self.model().v_add_scalar(rhs.sval()),
    {
        Vec4 {
            x: self.x.add_val(rhs),
            y: self.y.add_val(rhs),
            z: self.z.add_val(rhs),
            w: self.w.add_val(rhs),
        }
    }

    /// sub_scalar subtracts the same scalar from every component.
    pub fn sub_scalar(self, rhs: T) -> (r: Self)
        requires
            Self::m_fits(self.model().v_sub_scalar(rhs.sval())),
        ensures
            r.model() == self.model().v_sub_scalar(rhs.sval()),
    {
        Vec4 {
            x: self.x.sub_val(rhs),
            y: self.y.sub_val(rhs),
            z: self.z.sub_val(rhs),
            w: self.w.sub_val(rhs),
        }
    }

    /// mul_scalar multiplies every component by the same scalar.
    pub fn mul_scalar(self, rhs: T) -> (r: Self)
        requires
            Self::m_fits(self.model().v_mul_scalar(rhs.sval())),
        ensures
            r.model() == self.model().v_mul_scalar(rhs.sval()),
    {
        Vec4 {
            x: self.x.mul_val(rhs),
            y: self.y.mul_val(rhs),
            z: self.z.mul_val(rhs),
            w: self.w.mul_val(rhs),
        }
    }

    /// div_scalar divides every component by the same scalar, each
    /// quotient rounded toward zero.
    pub fn div_scalar(self, rhs: T) -> (r: Self)
        requires
            rhs.sval() != 0,
            Self::m_fits(self.model().v_div_scalar(rhs.sval())),
        ensures
            r.model() == self.model().v_div_scalar(rhs.sval()),
    {
        Vec4 {
            x: self.x.div_val(rhs),
            y: self.y.div_val(rhs),
            z: self.z.div_val(rhs),
            w: self.w.div_val(rhs),
        }
    }

    /// dot returns the dot product of self and b: the sum of the
    /// component-wise products, accumulated left to right.
    pub fn dot(self, b: Self) -> (r: T)
        requires
            Self::dot_fits(self.model(), b.model()),
        ensures
            r.sval() == self.model().v_dot(b.model()),
    {
        self.x.mul_val(b.x).add_val(self.y.mul_val(b.y)).add_val(self.z.mul_val(b.z)).add_val(
            self.w.mul_val(b.w),
        )
    }

    /// Whether the products and partial sums of a dot product are all
    /// representable in `T`.
    pub open spec fn dot_fits(a: V4, b: V4) -> bool {
        &&& T::fits(a.x * b.x)
        &&& T::fits(a.y * b.y)
        &&& T::fits(a.z * b.z)
        &&& T::fits(a.w * b.w)
        &&& T::fits(a.x * b.x + a.y * b.y)
        &&& T::fits(a.x * b.x + a.y * b.y + a.z * b.z)
        &&& T::fits(a.x * b.x + a.y * b.y + a.z * b.z + a.w * b.w)
    }

    /// length_sq returns the magnitude squared of this vector, useful
    /// primarily for comparing distances.
    pub fn length_sq(self) -> (r: T)
        requires
            Self::dot_fits(self.model(), self.model()),
        ensures
            r.sval() == self.model().v_dot(self.model()),
    {
        self.dot(self)
    }

    /// clamp returns the vector with each component clamped into
    /// `[min, max]`.
    pub fn clamp(self, min: T, max: T) -> (r: Self)
        ensures
            r.model() == self.model().v_clamp(min.sval(), max.sval()),
    {
        Vec4 {
            x: clamp_val(self.x, min, max),
            y: clamp_val(self.y, min, max),
            z: clamp_val(self.z, min, max),
            w: clamp_val(self.w, min, max),
        }
    }

    /// any_less tells if at least one component of this vector is less
    /// than the corresponding component of the other.
    pub fn any_less(&self, other: &Self) -> (r: bool)
        ensures
            r == self.model().any_lt(other.model()),
    {
        self.x.lt_val(other.x) || self.y.lt_val(other.y) || self.z.lt_val(other.z)
            || self.w.lt_val(other.w)
    }

    /// any_greater tells if at least one component of this vector is
    /// greater than the corresponding component of the other.
    pub fn any_greater(&self, other: &Self) -> (r: bool)
        ensures
            r == self.model().any_gt(other.model()),
    {
        other.x.lt_val(self.x) || other.y.lt_val(self.y) || other.z.lt_val(self.z)
            || other.w.lt_val(self.w)
    }
}

impl<T: Scalar> PartialOrd for Vec4<T> {
    /// partial_cmp compares the two vectors component-wise: less or
    /// greater only when all four components are strictly so, equal
    /// only when all four are equal, and no ordering otherwise.
    fn partial_cmp(&self, other: &Self) -> (r: Option<Ordering>) {
        if self.x.lt_val(other.x) && self.y.lt_val(other.y) && self.z.lt_val(other.z)
            && self.w.lt_val(other.w) {
            Some(Ordering::Less)
        } else if other.x.lt_val(self.x) && other.y.lt_val(self.y) && other.z.lt_val(self.z)
            && other.w.lt_val(self.w) {
            Some(Ordering::Greater)
        } else if self.x.eq_val(other.x) && self.y.eq_val(other.y) && self.z.eq_val(other.z)
            && self.w.eq_val(other.w) {
            proof {
                assert(self.model() =~= other.model());
            }
            Some(Ordering::Equal)
        } else {
            None
        }
    }
}

impl<T: Scalar> vstd::std_specs::cmp::PartialOrdSpecImpl for Vec4<T> {
    open spec fn obeys_partial_cmp_spec() -> bool {
        true
    }

    open spec fn partial_cmp_spec(&self, other: &Self) -> Option<Ordering> {
        if self.model().all_lt(other.model()) {
            Some(Ordering::Less)
        } else if other.model().all_lt(self.model()) {
            Some(Ordering::Greater)
        } else if self.model() == other.model() {
            Some(Ordering::Equal)
        } else {
            None
        }
    }
}

/// Two vectors with the same model are the same vector: the components
/// stand for their integers faithfully.
pub proof fn lemma_model_determines_vector<T: Scalar>(a: Vec4<T>, b: Vec4<T>)
    requires
        a.model() == b.model(),
    ensures
        a == b,
{
    T::lemma_sval_injective(a.x, b.x);
    T::lemma_sval_injective(a.y, b.y);
    T::lemma_sval_injective(a.z, b.z);
    T::lemma_sval_injective(a.w, b.w);
    assert(a =~= b);
}

/// Additive identity: adding the all-zero vector on either side leaves
/// a vector's model unchanged.
pub proof fn lemma_add_zero_model(m: V4)
    ensures
        m.v_add(V4::all_zero()) == m,
        V4::all_zero().v_add(m) == m,
{
    assert(m.v_add(V4::all_zero()) =~= m);
    assert(V4::all_zero().v_add(m) =~= m);
}

/// Additive identity on vectors themselves: a sum of a vector and a
/// zero vector, taken in either order, is that vector.
pub proof fn lemma_add_zero<T: Scalar>(v: Vec4<T>, z: Vec4<T>, r: Vec4<T>)
    requires
        z.model() == V4::all_zero(),
        r.model() == v.model().v_add(z.model()) || r.model() == z.model().v_add(v.model()),
    ensures
        r == v,
{
    lemma_add_zero_model(v.model());
    lemma_model_determines_vector(r, v);
}

/// Multiplicative identity: multiplying by the all-one vector leaves a
/// vector's model unchanged.
pub proof fn lemma_mul_one_model(m: V4)
    ensures
        m.v_mul(V4::all_one()) == m,
        V4::all_one().v_mul(m) == m,
{
    assert(m.v_mul(V4::all_one()) =~= m);
    assert(V4::all_one().v_mul(m) =~= m);
}

/// Multiplicative identity on vectors themselves: the product of a
/// vector and a one vector, taken in either order, is that vector.
pub proof fn lemma_mul_one<T: Scalar>(v: Vec4<T>, u: Vec4<T>, r: Vec4<T>)
    requires
        u.model() == V4::all_one(),
        r.model() == v.model().v_mul(u.model()) || r.model() == u.model().v_mul(v.model()),
    ensures
        r == v,
{
    lemma_mul_one_model(v.model());
    lemma_model_determines_vector(r, v);
}

/// Negation involution: negating a model twice returns it.
pub proof fn lemma_neg_neg_model(m: V4)
    ensures
        m.v_neg().v_neg() == m,
{
    assert(m.v_neg().v_neg() =~= m);
}

/// Negation involution on vectors themselves: negating a vector twice
/// returns the original vector.
pub proof fn lemma_neg_neg<T: Scalar>(v: Vec4<T>, n: Vec4<T>, r: Vec4<T>)
    requires
        n.model() == v.model().v_neg(),
        r.model() == n.model().v_neg(),
    ensures
        r == v,
{
    lemma_neg_neg_model(v.model());
    lemma_model_determines_vector(r, v);
}

/// The ordering is all-or-nothing: an ordering is reported only when
/// all four components agree on it, and two vectors that agree on no
/// verdict are incomparable.
pub proof fn lemma_partial_cmp_all_or_nothing<T: Scalar>(a: Vec4<T>, b: Vec4<T>)
    ensures
        a.partial_cmp_spec(&b) == Some(Ordering::Less) <==> a.model().all_lt(b.model()),
        a.partial_cmp_spec(&b) == Some(Ordering::Greater) <==> b.model().all_lt(a.model()),
        a.partial_cmp_spec(&b) == Some(Ordering::Equal) <==> (!a.model().all_lt(b.model())
            && !b.model().all_lt(a.model()) && a == b),
        a.partial_cmp_spec(&b) is None <==> (!a.model().all_lt(b.model()) && !b.model().all_lt(
            a.model(),
        ) && a != b),
{
    if a.model() == b.model() {
        lemma_model_determines_vector(a, b);
    }
}

/// One scalar clamped into `[lo, hi]`, the lower bound applied first.
fn clamp_val<T: Scalar>(v: T, lo: T, hi: T) -> (r: T)
    ensures
        r.sval() == clamp_int(v.sval(), lo.sval(), hi.sval()),
{
    if v.lt_val(lo) {
        lo
    } else if hi.lt_val(v) {
        hi
    } else {
        v
    }
}

} // verus!
