//! The scalar capability bound: the arithmetic a component type must
//! supply so that vectors and distance units can be built over it.

use vstd::prelude::*;

verus! {

use vstd::arithmetic::div_mod::lemma_div_multiples_vanish;
use vstd::arithmetic::div_mod::lemma_div_pos_is_pos;
use vstd::arithmetic::div_mod::lemma_fundamental_div_mod;

/// The absolute value of a mathematical integer.
pub open spec fn abs_int(x: int) -> int {
    if x < 0 {
        -x
    } else {
        x
    }
}

/// Division rounding the quotient toward zero, the semantics of `/` on
/// the primitive signed integers.
pub open spec fn trunc_div(a: int, b: int) -> int {
    let q = abs_int(a) / abs_int(b);
    if (a < 0) != (b < 0) {
        -q
    } else {
        q
    }
}

/// Euclidean division by a negated positive divisor flips the sign of
/// the quotient when the dividend is nonnegative.
proof fn lemma_div_neg_denom(p: int, n: int)
    requires
        p >= 0,
        n > 0,
    ensures
        p / (-n) == -(p / n),
{
    let q = p / n;
    let r = p % n;
    lemma_fundamental_div_mod(p, n);
    let e = p / (-n);
    let s = p % (-n);
    lemma_fundamental_div_mod(p, -n);
    assert(0 <= r < n);
    assert(0 <= s < n) by (nonlinear_arith)
        requires
            n > 0,
            p >= 0,
            s == p % (-n),
    ;
    assert(e == -q) by (nonlinear_arith)
        requires
            n * q + r == (-n) * e + s,
            0 <= r < n,
            0 <= s < n,
            n > 0,
    ;
}

/// Truncating division agrees with the Euclidean quotient on a
/// nonnegative dividend, and with its mirror image on a negative one.
proof fn lemma_trunc_div_cases(a: int, b: int)
    requires
        b != 0,
    ensures
        a >= 0 ==> trunc_div(a, b) == a / b,
        a < 0 ==> trunc_div(a, b) == -((-a) / b),
{
    if a >= 0 {
        if b < 0 {
            lemma_div_neg_denom(a, -b);
        }
    } else {
        if b < 0 {
            lemma_div_neg_denom(-a, -b);
        }
    }
}

/// Multiplying by a positive factor and then dividing by it, with the
/// quotient rounded toward zero, returns the original integer.
pub proof fn lemma_trunc_div_mul_exact(t: int, k: int)
    requires
        k >= 1,
    ensures
        trunc_div(t * k, k) == t,
{
    if t >= 0 {
        assert(t * k >= 0) by (nonlinear_arith)
            requires
                t >= 0,
                k >= 1,
        ;
        assert(t * k == k * t) by (nonlinear_arith);
        lemma_div_multiples_vanish(t, k);
    } else {
        assert(t * k < 0) by (nonlinear_arith)
            requires
                t < 0,
                k >= 1,
        ;
        assert(-(t * k) == k * (-t)) by (nonlinear_arith);
        lemma_div_multiples_vanish(-t, k);
    }
}

/// Dividing by `d` with the quotient rounded toward zero, then
/// multiplying by a factor no larger than `d`, keeps the result between
/// zero and the original integer.
pub proof fn lemma_trunc_div_scale_bounds(x: int, d: int, k: int)
    requires
        1 <= k <= d,
    ensures
        x >= 0 ==> 0 <= trunc_div(x, d) * k <= x,
        x < 0 ==> x <= trunc_div(x, d) * k <= 0,
{
    if x >= 0 {
        let q = x / d;
        lemma_div_pos_is_pos(x, d);
        lemma_fundamental_div_mod(x, d);
        assert(0 <= q * k <= x) by (nonlinear_arith)
            requires
                q >= 0,
                1 <= k <= d,
                x == d * q + (x % d),
                x % d >= 0,
        ;
    } else {
        let q = (-x) / d;
        lemma_div_pos_is_pos(-x, d);
        lemma_fundamental_div_mod(-x, d);
        assert(0 <= q * k <= -x) by (nonlinear_arith)
            requires
                q >= 0,
                1 <= k <= d,
                -x == d * q + ((-x) % d),
                (-x) % d >= 0,
        ;
        assert(trunc_div(x, d) * k == -(q * k)) by (nonlinear_arith)
            requires
                trunc_div(x, d) == -q,
        ;
    }
}

/// A numeric component type: a type whose values stand for mathematical
/// integers, closed under the ring operations wherever the results are
/// representable, with additive and multiplicative identities.
pub trait Scalar: Sized + Copy + PartialEq + Eq {
    /// The mathematical integer this value stands for.
    spec fn sval(self) -> int;

    /// Whether a mathematical integer is representable in this type.
    spec fn fits(x: int) -> bool;

    /// Values standing for the same integer are the same value.
    proof fn lemma_sval_injective(a: Self, b: Self)
        ensures
            a.sval() == b.sval() ==> a == b,
    ;

    /// Every value's integer is representable.
    proof fn lemma_val_fits(self)
        ensures
            Self::fits(self.sval()),
    ;

    /// Representability is an interval that contains the identities.
    proof fn lemma_fits_range()
        ensures
            Self::fits(0),
            Self::fits(1),
            forall|a: int, b: int, x: int|
                #![trigger Self::fits(a), Self::fits(b), Self::fits(x)]
                Self::fits(a) && Self::fits(b) && a <= x && x <= b ==> Self::fits(x),
    ;

    /// The sum of the two values, exact whenever it is representable.
    fn add_val(self, o: Self) -> (r: Self)
        requires
            Self::fits(self.sval() + o.sval()),
        ensures
            r.sval() == self.sval() + o.sval(),
    ;

    /// The difference of the two values, exact whenever it is representable.
    fn sub_val(self, o: Self) -> (r: Self)
        requires
            Self::fits(self.sval() - o.sval()),
        ensures
            r.sval() == self.sval() - o.sval(),
    ;

    /// The product of the two values, exact whenever it is representable.
    fn mul_val(self, o: Self) -> (r: Self)
        requires
            Self::fits(self.sval() * o.sval()),
        ensures
            r.sval() == self.sval() * o.sval(),
    ;

    /// The quotient of the two values, rounded toward zero.
    fn div_val(self, o: Self) -> (r: Self)
        requires
            o.sval() != 0,
            Self::fits(trunc_div(self.sval(), o.sval())),
        ensures
            r.sval() == trunc_div(self.sval(), o.sval()),
    ;

    /// The negation of the value, exact whenever it is representable.
    fn neg_val(self) -> (r: Self)
        requires
            Self::fits(-self.sval()),
        ensures
            r.sval() == -self.sval(),
    ;

    /// Strict order on the integers the values stand for.
    fn lt_val(self, o: Self) -> (r: bool)
        ensures
            r == (self.sval() < o.sval()),
    ;

    /// Equality of the integers the values stand for.
    fn eq_val(self, o: Self) -> (r: bool)
        ensures
            r == (self.sval() == o.sval()),
    ;

    /// The additive identity.
    fn zero_val() -> (r: Self)
        ensures
            r.sval() == 0,
    ;

    /// The multiplicative identity.
    fn one_val() -> (r: Self)
        ensures
            r.sval() == 1,
    ;
}

/// The finer capability of casting small integer literals exactly,
/// needed by the unit conversions to build their scale factors. Kept
/// apart from `Scalar` so that narrow types can still serve as vector
/// components.
pub trait ScalarCast: Scalar {
    /// An exact cast from an integer literal.
    fn from_u32(v: u32) -> (r: Self)
        requires
            Self::fits(v as int),
        ensures
            r.sval() == v as int,
    ;

    /// The conversion scale factors are representable.
    proof fn lemma_cast_range()
        ensures
            Self::fits(100),
            Self::fits(1000),
    ;
}

impl Scalar for i64 {
    open spec fn sval(self) -> int {
        self as int
    }

    open spec fn fits(x: int) -> bool {
        i64::MIN <= x <= i64::MAX
    }

    proof fn lemma_sval_injective(a: Self, b: Self) {
    }

    proof fn lemma_val_fits(self) {
    }

    proof fn lemma_fits_range() {
    }

    fn add_val(self, o: Self) -> (r: Self) {
        self + o
    }

    fn sub_val(self, o: Self) -> (r: Self) {
        self - o
    }

    fn mul_val(self, o: Self) -> (r: Self) {
        self * o
    }

    fn div_val(self, o: Self) -> (r: Self) {
        proof {
            lemma_trunc_div_cases(self as int, o as int);
        }
        self / o
    }

    fn neg_val(self) -> (r: Self) {
        -self
    }

    fn lt_val(self, o: Self) -> (r: bool) {
        self < o
    }

    fn eq_val(self, o: Self) -> (r: bool) {
        self == o
    }

    fn zero_val() -> (r: Self) {
        0i64
    }

    fn one_val() -> (r: Self) {
        1i64
    }
}

impl ScalarCast for i64 {
    fn from_u32(v: u32) -> (r: Self) {
        v as i64
    }

    proof fn lemma_cast_range() {
    }
}

impl Scalar for i32 {
    open spec fn sval(self) -> int {
        self as int
    }

    open spec fn fits(x: int) -> bool {
        i32::MIN <= x <= i32::MAX
    }

    proof fn lemma_sval_injective(a: Self, b: Self) {
    }

    proof fn lemma_val_fits(self) {
    }

    proof fn lemma_fits_range() {
    }

    fn add_val(self, o: Self) -> (r: Self) {
        self + o
    }

    fn sub_val(self, o: Self) -> (r: Self) {
        self - o
    }

    fn mul_val(self, o: Self) -> (r: Self) {
        self * o
    }

    fn div_val(self, o: Self) -> (r: Self) {
        proof {
            lemma_trunc_div_cases(self as int, o as int);
        }
        self / o
    }

    fn neg_val(self) -> (r: Self) {
        -self
    }

    fn lt_val(self, o: Self) -> (r: bool) {
        self < o
    }

    fn eq_val(self, o: Self) -> (r: bool) {
        self == o
    }

    fn zero_val() -> (r: Self) {
        0i32
    }

    fn one_val() -> (r: Self) {
        1i32
    }
}

impl ScalarCast for i32 {
    fn from_u32(v: u32) -> (r: Self) {
        v as i32
    }

    proof fn lemma_cast_range() {
    }
}

impl Scalar for u8 {
    open spec fn sval(self) -> int {
        self as int
    }

    open spec fn fits(x: int) -> bool {
        0 <= x <= u8::MAX
    }

    proof fn lemma_sval_injective(a: Self, b: Self) {
    }

    proof fn lemma_val_fits(self) {
    }

    proof fn lemma_fits_range() {
    }

    fn add_val(self, o: Self) -> (r: Self) {
        self + o
    }

    fn sub_val(self, o: Self) -> (r: Self) {
        self - o
    }

    fn mul_val(self, o: Self) -> (r: Self) {
        self * o
    }

    fn div_val(self, o: Self) -> (r: Self) {
        self / o
    }

    fn neg_val(self) -> (r: Self) {
        0u8
    }

    fn lt_val(self, o: Self) -> (r: bool) {
        self < o
    }

    fn eq_val(self, o: Self) -> (r: bool) {
        self == o
    }

    fn zero_val() -> (r: Self) {
        0u8
    }

    fn one_val() -> (r: Self) {
        1u8
    }
}

} // verus!
