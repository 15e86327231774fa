//! Distance-unit types: meters, millimeters, centimeters and
//! kilometers, each wrapping one scalar, with one conversion
//! capability trait per target unit. Every unit converts to every
//! unit; conversions to oneself are the identity, and cross-unit
//! conversions compose through the base unit, meters, with exact
//! integer scale factors.

use vstd::prelude::*;

use crate::scalar::{Scalar, ScalarCast, lemma_trunc_div_mul_exact, lemma_trunc_div_scale_bounds, trunc_div};

verus! {

use vstd::arithmetic::div_mod::lemma_fundamental_div_mod;

/// M represents meters, the SI base unit of distance.
#[derive(Clone, Copy, Debug, PartialEq, Eq, Structural)]
#[verifier::ext_equal]
pub struct M<T>(pub T);

/// MM represents millimeters; 1000 millimeters make one meter.
#[derive(Clone, Copy, Debug, PartialEq, Eq, Structural)]
#[verifier::ext_equal]
pub struct MM<T>(pub T);

/// CM represents centimeters; 100 centimeters make one meter.
#[derive(Clone, Copy, Debug, PartialEq, Eq, Structural)]
#[verifier::ext_equal]
pub struct CM<T>(pub T);

/// KM represents kilometers; one kilometer is 1000 meters.
#[derive(Clone, Copy, Debug, PartialEq, Eq, Structural)]
#[verifier::ext_equal]
pub struct KM<T>(pub T);

/// A meter count expressed in millimeters.
pub open spec fn m_val_to_mm(x: int) -> int {
    x * 1000
}

/// A meter count expressed in centimeters.
pub open spec fn m_val_to_cm(x: int) -> int {
    x * 100
}

/// A meter count expressed in kilometers, rounded toward zero.
pub open spec fn m_val_to_km(x: int) -> int {
    trunc_div(x, 1000)
}

/// A millimeter count expressed in meters, rounded toward zero.
pub open spec fn mm_val_to_m(x: int) -> int {
    trunc_div(x, 1000)
}

/// A centimeter count expressed in meters, rounded toward zero.
pub open spec fn cm_val_to_m(x: int) -> int {
    trunc_div(x, 100)
}

/// A kilometer count expressed in meters.
pub open spec fn km_val_to_m(x: int) -> int {
    x * 1000
}

/// ToM is the canonical trait to use for taking input in meters: any
/// unit implementing it can be given where meters are sought.
pub trait ToM<T: Scalar>: Sized {
    /// Whether every value met along the conversion is representable.
    spec fn to_m_req(self) -> bool;

    /// The meter count the conversion yields.
    spec fn to_m_val(self) -> int;

    /// to_m returns these units in meters, performing conversion if
    /// needed.
    fn to_m(self) -> (r: M<T>)
        requires
            self.to_m_req(),
        ensures
            r.0.sval() == self.to_m_val(),
    ;
}

/// ToMM is the canonical trait to use for taking input in millimeters.
pub trait ToMM<T: Scalar>: Sized {
    /// Whether every value met along the conversion is representable.
    spec fn to_mm_req(self) -> bool;

    /// The millimeter count the conversion yields.
    spec fn to_mm_val(self) -> int;

    /// to_mm returns these units in millimeters, performing conversion
    /// if needed.
    fn to_mm(self) -> (r: MM<T>)
        requires
            self.to_mm_req(),
        ensures
            r.0.sval() == self.to_mm_val(),
    ;
}

/// ToCM is the canonical trait to use for taking input in centimeters.
pub trait ToCM<T: Scalar>: Sized {
    /// Whether every value met along the conversion is representable.
    spec fn to_cm_req(self) -> bool;

    /// The centimeter count the conversion yields.
    spec fn to_cm_val(self) -> int;

    /// to_cm returns these units in centimeters, performing conversion
    /// if needed.
    fn to_cm(self) -> (r: CM<T>)
        requires
            self.to_cm_req(),
        ensures
            r.0.sval() == self.to_cm_val(),
    ;
}

/// ToKM is the canonical trait to use for taking input in kilometers.
pub trait ToKM<T: Scalar>: Sized {
    /// Whether every value met along the conversion is representable.
    spec fn to_km_req(self) -> bool;

    /// The kilometer count the conversion yields.
    spec fn to_km_val(self) -> int;

    /// to_km returns these units in kilometers, performing conversion
    /// if needed.
    fn to_km(self) -> (r: KM<T>)
        requires
            self.to_km_req(),
        ensures
            r.0.sval() == self.to_km_val(),
    ;
}

impl<T: Scalar> ToM<T> for M<T> {
    open spec fn to_m_req(self) -> bool {
        true
    }

    open spec fn to_m_val(self) -> int {
        self.0.sval()
    }

    /// to_m simply returns self.
    fn to_m(self) -> (r: M<T>) {
        self
    }
}

impl<T: ScalarCast> ToMM<T> for M<T> {
    open spec fn to_mm_req(self) -> bool {
        T::fits(m_val_to_mm(self.0.sval()))
    }

    open spec fn to_mm_val(self) -> int {
        m_val_to_mm(self.0.sval())
    }

    /// to_mm returns these meters converted to millimeters.
    fn to_mm(self) -> (r: MM<T>) {
        proof {
            T::lemma_fits_range();
            T::lemma_cast_range();
        }
        MM(self.0.mul_val(T::from_u32(1000)))
    }
}

impl<T: ScalarCast> ToCM<T> for M<T> {
    open spec fn to_cm_req(self) -> bool {
        T::fits(m_val_to_cm(self.0.sval()))
    }

    open spec fn to_cm_val(self) -> int {
        m_val_to_cm(self.0.sval())
    }

    /// to_cm returns these meters converted to centimeters.
    fn to_cm(self) -> (r: CM<T>) {
        proof {
            T::lemma_fits_range();
            T::lemma_cast_range();
        }
        CM(self.0.mul_val(T::from_u32(100)))
    }
}

impl<T: ScalarCast> ToKM<T> for M<T> {
    open spec fn to_km_req(self) -> bool {
        true
    }

    open spec fn to_km_val(self) -> int {
        m_val_to_km(self.0.sval())
    }

    /// to_km returns these meters converted to kilometers, the
    /// quotient rounded toward zero.
    fn to_km(self) -> (r: KM<T>) {
        proof {
            T::lemma_fits_range();
            T::lemma_cast_range();
            T::lemma_val_fits(self.0);
            lemma_trunc_div_scale_bounds(self.0.sval(), 1000, 1);
        }
        KM(self.0.div_val(T::from_u32(1000)))
    }
}

impl<T: Scalar> ToMM<T> for MM<T> {
    open spec fn to_mm_req(self) -> bool {
        true
    }

    open spec fn to_mm_val(self) -> int {
        self.0.sval()
    }

    /// to_mm simply returns self.
    fn to_mm(self) -> (r: MM<T>) {
        self
    }
}

impl<T: ScalarCast> ToM<T> for MM<T> {
    open spec fn to_m_req(self) -> bool {
        true
    }

    open spec fn to_m_val(self) -> int {
        mm_val_to_m(self.0.sval())
    }

    /// to_m returns these millimeters converted to meters, the
    /// quotient rounded toward zero.
    fn to_m(self) -> (r: M<T>) {
        proof {
            T::lemma_fits_range();
            T::lemma_cast_range();
            T::lemma_val_fits(self.0);
            lemma_trunc_div_scale_bounds(self.0.sval(), 1000, 1);
        }
        M(self.0.div_val(T::from_u32(1000)))
    }
}

impl<T: ScalarCast> ToCM<T> for MM<T> {
    open spec fn to_cm_req(self) -> bool {
        true
    }

    open spec fn to_cm_val(self) -> int {
        m_val_to_cm(mm_val_to_m(self.0.sval()))
    }

    /// to_cm returns these millimeters converted to centimeters,
    /// composing through meters.
    fn to_cm(self) -> (r: CM<T>) {
        proof {
            T::lemma_fits_range();
            T::lemma_cast_range();
            T::lemma_val_fits(self.0);
            lemma_trunc_div_scale_bounds(self.0.sval(), 1000, 100);
        }
        self.to_m().to_cm()
    }
}

impl<T: ScalarCast> ToKM<T> for MM<T> {
    open spec fn to_km_req(self) -> bool {
        true
    }

    open spec fn to_km_val(self) -> int {
        m_val_to_km(mm_val_to_m(self.0.sval()))
    }

    /// to_km returns these millimeters converted to kilometers,
    /// composing through meters.
    fn to_km(self) -> (r: KM<T>) {
        self.to_m().to_km()
    }
}

impl<T: Scalar> ToCM<T> for CM<T> {
    open spec fn to_cm_req(self) -> bool {
        true
    }

    open spec fn to_cm_val(self) -> int {
        self.0.sval()
    }

    /// to_cm simply returns self.
    fn to_cm(self) -> (r: CM<T>) {
        self
    }
}

impl<T: ScalarCast> ToM<T> for CM<T> {
    open spec fn to_m_req(self) -> bool {
        true
    }

    open spec fn to_m_val(self) -> int {
        cm_val_to_m(self.0.sval())
    }

    /// to_m returns these centimeters converted to meters, the
    /// quotient rounded toward zero.
    fn to_m(self) -> (r: M<T>) {
        proof {
            T::lemma_fits_range();
            T::lemma_cast_range();
            T::lemma_val_fits(self.0);
            lemma_trunc_div_scale_bounds(self.0.sval(), 100, 1);
        }
        M(self.0.div_val(T::from_u32(100)))
    }
}

impl<T: ScalarCast> ToMM<T> for CM<T> {
    open spec fn to_mm_req(self) -> bool {
        T::fits(m_val_to_mm(cm_val_to_m(self.0.sval())))
    }

    open spec fn to_mm_val(self) -> int {
        m_val_to_mm(cm_val_to_m(self.0.sval()))
    }

    /// to_mm returns these centimeters converted to millimeters,
    /// composing through meters.
    fn to_mm(self) -> (r: MM<T>) {
        self.to_m().to_mm()
    }
}

impl<T: ScalarCast> ToKM<T> for CM<T> {
    open spec fn to_km_req(self) -> bool {
        true
    }

    open spec fn to_km_val(self) -> int {
        m_val_to_km(cm_val_to_m(self.0.sval()))
    }

    /// to_km returns these centimeters converted to kilometers,
    /// composing through meters.
    fn to_km(self) -> (r: KM<T>) {
        self.to_m().to_km()
    }
}

impl<T: Scalar> ToKM<T> for KM<T> {
    open spec fn to_km_req(self) -> bool {
        true
    }

    open spec fn to_km_val(self) -> int {
        self.0.sval()
    }

    /// to_km simply returns self.
    fn to_km(self) -> (r: KM<T>) {
        self
    }
}

impl<T: ScalarCast> ToM<T> for KM<T> {
    open spec fn to_m_req(self) -> bool {
        T::fits(km_val_to_m(self.0.sval()))
    }

    open spec fn to_m_val(self) -> int {
        km_val_to_m(self.0.sval())
    }

    /// to_m returns these kilometers converted to meters.
    fn to_m(self) -> (r: M<T>) {
        proof {
            T::lemma_fits_range();
            T::lemma_cast_range();
        }
        M(self.0.mul_val(T::from_u32(1000)))
    }
}

impl<T: ScalarCast> ToMM<T> for KM<T> {
    open spec fn to_mm_req(self) -> bool {
        T::fits(km_val_to_m(self.0.sval())) && T::fits(
            m_val_to_mm(km_val_to_m(self.0.sval())),
        )
    }

    open spec fn to_mm_val(self) -> int {
        m_val_to_mm(km_val_to_m(self.0.sval()))
    }

    /// to_mm returns these kilometers converted to millimeters,
    /// composing through meters.
    fn to_mm(self) -> (r: MM<T>) {
        self.to_m().to_mm()
    }
}

impl<T: ScalarCast> ToCM<T> for KM<T> {
    open spec fn to_cm_req(self) -> bool {
        T::fits(km_val_to_m(self.0.sval())) && T::fits(
            m_val_to_cm(km_val_to_m(self.0.sval())),
        )
    }

    open spec fn to_cm_val(self) -> int {
        m_val_to_cm(km_val_to_m(self.0.sval()))
    }

    /// to_cm returns these kilometers converted to centimeters,
    /// composing through meters.
    fn to_cm(self) -> (r: CM<T>) {
        self.to_m().to_cm()
    }
}

/// A meter count is itself a scalar, so vectors of unit-typed
/// components are a first-class instantiation.
impl<T: Scalar> Scalar for M<T> {
    open spec fn sval(self) -> int {
        self.0.sval()
    }

    open spec fn fits(x: int) -> bool {
        T::fits(x)
    }

    proof fn lemma_sval_injective(a: Self, b: Self) {
        T::lemma_sval_injective(a.0, b.0);
        if a.0.sval() == b.0.sval() {
            assert(a =~= b);
        }
    }

    proof fn lemma_val_fits(self) {
        T::lemma_val_fits(self.0);
    }

    proof fn lemma_fits_range() {
        T::lemma_fits_range();
    }

    fn add_val(self, o: Self) -> (r: Self) {
        M(self.0.add_val(o.0))
    }

    fn sub_val(self, o: Self) -> (r: Self) {
        M(self.0.sub_val(o.0))
    }

    fn mul_val(self, o: Self) -> (r: Self) {
        M(self.0.mul_val(o.0))
    }

    fn div_val(self, o: Self) -> (r: Self) {
        M(self.0.div_val(o.0))
    }

    fn neg_val(self) -> (r: Self) {
        M(self.0.neg_val())
    }

    fn lt_val(self, o: Self) -> (r: bool) {
        self.0.lt_val(o.0)
    }

    fn eq_val(self, o: Self) -> (r: bool) {
        self.0.eq_val(o.0)
    }

    fn zero_val() -> (r: Self) {
        M(T::zero_val())
    }

    fn one_val() -> (r: Self) {
        M(T::one_val())
    }
}

/// A millimeter count is itself a scalar, so vectors of unit-typed
/// components are a first-class instantiation.
impl<T: Scalar> Scalar for MM<T> {
    open spec fn sval(self) -> int {
        self.0.sval()
    }

    open spec fn fits(x: int) -> bool {
        T::fits(x)
    }

    proof fn lemma_sval_injective(a: Self, b: Self) {
        T::lemma_sval_injective(a.0, b.0);
        if a.0.sval() == b.0.sval() {
            assert(a =~= b);
        }
    }

    proof fn lemma_val_fits(self) {
        T::lemma_val_fits(self.0);
    }

    proof fn lemma_fits_range() {
        T::lemma_fits_range();
    }

    fn add_val(self, o: Self) -> (r: Self) {
        MM(self.0.add_val(o.0))
    }

    fn sub_val(self, o: Self) -> (r: Self) {
        MM(self.0.sub_val(o.0))
    }

    fn mul_val(self, o: Self) -> (r: Self) {
        MM(self.0.mul_val(o.0))
    }

    fn div_val(self, o: Self) -> (r: Self) {
        MM(self.0.div_val(o.0))
    }

    fn neg_val(self) -> (r: Self) {
        MM(self.0.neg_val())
    }

    fn lt_val(self, o: Self) -> (r: bool) {
        self.0.lt_val(o.0)
    }

    fn eq_val(self, o: Self) -> (r: bool) {
        self.0.eq_val(o.0)
    }

    fn zero_val() -> (r: Self) {
        MM(T::zero_val())
    }

    fn one_val() -> (r: Self) {
        MM(T::one_val())
    }
}

/// A centimeter count is itself a scalar, so vectors of unit-typed
/// components are a first-class instantiation.
impl<T: Scalar> Scalar for CM<T> {
    open spec fn sval(self) -> int {
        self.0.sval()
    }

    open spec fn fits(x: int) -> bool {
        T::fits(x)
    }

    proof fn lemma_sval_injective(a: Self, b: Self) {
        T::lemma_sval_injective(a.0, b.0);
        if a.0.sval() == b.0.sval() {
            assert(a =~= b);
        }
    }

    proof fn lemma_val_fits(self) {
        T::lemma_val_fits(self.0);
    }

    proof fn lemma_fits_range() {
        T::lemma_fits_range();
    }

    fn add_val(self, o: Self) -> (r: Self) {
        CM(self.0.add_val(o.0))
    }

    fn sub_val(self, o: Self) -> (r: Self) {
        CM(self.0.sub_val(o.0))
    }

    fn mul_val(self, o: Self) -> (r: Self) {
        CM(self.0.mul_val(o.0))
    }

    fn div_val(self, o: Self) -> (r: Self) {
        CM(self.0.div_val(o.0))
    }

    fn neg_val(self) -> (r: Self) {
        CM(self.0.neg_val())
    }

    fn lt_val(self, o: Self) -> (r: bool) {
        self.0.lt_val(o.0)
    }

    fn eq_val(self, o: Self) -> (r: bool) {
        self.0.eq_val(o.0)
    }

    fn zero_val() -> (r: Self) {
        CM(T::zero_val())
    }

    fn one_val() -> (r: Self) {
        CM(T::one_val())
    }
}

/// A kilometer count is itself a scalar, so vectors of unit-typed
/// components are a first-class instantiation.
impl<T: Scalar> Scalar for KM<T> {
    open spec fn sval(self) -> int {
        self.0.sval()
    }

    open spec fn fits(x: int) -> bool {
        T::fits(x)
    }

    proof fn lemma_sval_injective(a: Self, b: Self) {
        T::lemma_sval_injective(a.0, b.0);
        if a.0.sval() == b.0.sval() {
            assert(a =~= b);
        }
    }

    proof fn lemma_val_fits(self) {
        T::lemma_val_fits(self.0);
    }

    proof fn lemma_fits_range() {
        T::lemma_fits_range();
    }

    fn add_val(self, o: Self) -> (r: Self) {
        KM(self.0.add_val(o.0))
    }

    fn sub_val(self, o: Self) -> (r: Self) {
        KM(self.0.sub_val(o.0))
    }

    fn mul_val(self, o: Self) -> (r: Self) {
        KM(self.0.mul_val(o.0))
    }

    fn div_val(self, o: Self) -> (r: Self) {
        KM(self.0.div_val(o.0))
    }

    fn neg_val(self) -> (r: Self) {
        KM(self.0.neg_val())
    }

    fn lt_val(self, o: Self) -> (r: bool) {
        self.0.lt_val(o.0)
    }

    fn eq_val(self, o: Self) -> (r: bool) {
        self.0.eq_val(o.0)
    }

    fn zero_val() -> (r: Self) {
        KM(T::zero_val())
    }

    fn one_val() -> (r: Self) {
        KM(T::one_val())
    }
}

/// Two meter values wrapping scalars that stand for the same integer
/// are the same value.
pub proof fn lemma_same_m<T: Scalar>(a: M<T>, b: M<T>)
    requires
        a.0.sval() == b.0.sval(),
    ensures
        a == b,
{
    T::lemma_sval_injective(a.0, b.0);
    assert(a =~= b);
}

/// Two millimeter values wrapping scalars that stand for the same
/// integer are the same value.
pub proof fn lemma_same_mm<T: Scalar>(a: MM<T>, b: MM<T>)
    requires
        a.0.sval() == b.0.sval(),
    ensures
        a == b,
{
    T::lemma_sval_injective(a.0, b.0);
    assert(a =~= b);
}

/// Two centimeter values wrapping scalars that stand for the same
/// integer are the same value.
pub proof fn lemma_same_cm<T: Scalar>(a: CM<T>, b: CM<T>)
    requires
        a.0.sval() == b.0.sval(),
    ensures
        a == b,
{
    T::lemma_sval_injective(a.0, b.0);
    assert(a =~= b);
}

/// Two kilometer values wrapping scalars that stand for the same
/// integer are the same value.
pub proof fn lemma_same_km<T: Scalar>(a: KM<T>, b: KM<T>)
    requires
        a.0.sval() == b.0.sval(),
    ensures
        a == b,
{
    T::lemma_sval_injective(a.0, b.0);
    assert(a =~= b);
}

/// An integer that is a whole multiple of `k` is `k` times its
/// truncating quotient by `k`.
proof fn lemma_exact_div(x: int, k: int)
    requires
        k >= 1,
        x % k == 0,
    ensures
        x == trunc_div(x, k) * k,
        trunc_div(x, k) == x / k,
{
    let t = x / k;
    lemma_fundamental_div_mod(x, k);
    lemma_trunc_div_mul_exact(t, k);
}

/// Round trip: meters to millimeters and back is the identity.
pub proof fn lemma_m_mm_round_trip<T: ScalarCast>(a: M<T>, b: MM<T>, c: M<T>)
    requires
        b.0.sval() == a.to_mm_val(),
        c.0.sval() == b.to_m_val(),
    ensures
        c == a,
{
    lemma_trunc_div_mul_exact(a.0.sval(), 1000);
    lemma_same_m(c, a);
}

/// Round trip: meters to centimeters and back is the identity.
pub proof fn lemma_m_cm_round_trip<T: ScalarCast>(a: M<T>, b: CM<T>, c: M<T>)
    requires
        b.0.sval() == a.to_cm_val(),
        c.0.sval() == b.to_m_val(),
    ensures
        c == a,
{
    lemma_trunc_div_mul_exact(a.0.sval(), 100);
    lemma_same_m(c, a);
}

/// Round trip: meters to kilometers and back is the identity whenever
/// the meter count is a whole multiple of 1000.
pub proof fn lemma_m_km_round_trip<T: ScalarCast>(a: M<T>, b: KM<T>, c: M<T>)
    requires
        a.0.sval() % 1000 == 0,
        b.0.sval() == a.to_km_val(),
        c.0.sval() == b.to_m_val(),
    ensures
        c == a,
{
    lemma_exact_div(a.0.sval(), 1000);
    lemma_same_m(c, a);
}

/// Round trip: millimeters to meters and back is the identity whenever
/// the millimeter count is a whole multiple of 1000.
pub proof fn lemma_mm_m_round_trip<T: ScalarCast>(a: MM<T>, b: M<T>, c: MM<T>)
    requires
        a.0.sval() % 1000 == 0,
        b.0.sval() == a.to_m_val(),
        c.0.sval() == b.to_mm_val(),
    ensures
        c == a,
{
    lemma_exact_div(a.0.sval(), 1000);
    lemma_same_mm(c, a);
}

/// Round trip: millimeters to centimeters and back is the identity
/// whenever the millimeter count is a whole multiple of 1000.
pub proof fn lemma_mm_cm_round_trip<T: ScalarCast>(a: MM<T>, b: CM<T>, c: MM<T>)
    requires
        a.0.sval() % 1000 == 0,
        b.0.sval() == a.to_cm_val(),
        c.0.sval() == b.to_mm_val(),
    ensures
        c == a,
{
    let x = a.0.sval();
    let t = x / 1000;
    lemma_exact_div(x, 1000);
    lemma_trunc_div_mul_exact(t, 100);
    lemma_same_mm(c, a);
}

/// Round trip: millimeters to kilometers and back is the identity
/// whenever the millimeter count is a whole multiple of 1000000.
pub proof fn lemma_mm_km_round_trip<T: ScalarCast>(a: MM<T>, b: KM<T>, c: MM<T>)
    requires
        a.0.sval() % 1000000 == 0,
        b.0.sval() == a.to_km_val(),
        c.0.sval() == b.to_mm_val(),
    ensures
        c == a,
{
    let x = a.0.sval();
    let t = x / 1000000;
    lemma_exact_div(x, 1000000);
    assert(x == (1000 * t) * 1000);
    lemma_trunc_div_mul_exact(1000 * t, 1000);
    lemma_trunc_div_mul_exact(t, 1000);
    lemma_same_mm(c, a);
}

/// Round trip: centimeters to meters and back is the identity whenever
/// the centimeter count is a whole multiple of 100.
pub proof fn lemma_cm_m_round_trip<T: ScalarCast>(a: CM<T>, b: M<T>, c: CM<T>)
    requires
        a.0.sval() % 100 == 0,
        b.0.sval() == a.to_m_val(),
        c.0.sval() == b.to_cm_val(),
    ensures
        c == a,
{
    lemma_exact_div(a.0.sval(), 100);
    lemma_same_cm(c, a);
}

/// Round trip: centimeters to millimeters and back is the identity
/// whenever the centimeter count is a whole multiple of 100.
pub proof fn lemma_cm_mm_round_trip<T: ScalarCast>(a: CM<T>, b: MM<T>, c: CM<T>)
    requires
        a.0.sval() % 100 == 0,
        b.0.sval() == a.to_mm_val(),
        c.0.sval() == b.to_cm_val(),
    ensures
        c == a,
{
    let x = a.0.sval();
    let t = x / 100;
    lemma_exact_div(x, 100);
    lemma_trunc_div_mul_exact(t, 1000);
    lemma_same_cm(c, a);
}

/// Round trip: centimeters to kilometers and back is the identity
/// whenever the centimeter count is a whole multiple of 100000.
pub proof fn lemma_cm_km_round_trip<T: ScalarCast>(a: CM<T>, b: KM<T>, c: CM<T>)
    requires
        a.0.sval() % 100000 == 0,
        b.0.sval() == a.to_km_val(),
        c.0.sval() == b.to_cm_val(),
    ensures
        c == a,
{
    let x = a.0.sval();
    let t = x / 100000;
    lemma_exact_div(x, 100000);
    assert(x == (1000 * t) * 100);
    lemma_trunc_div_mul_exact(1000 * t, 100);
    lemma_trunc_div_mul_exact(t, 1000);
    lemma_same_cm(c, a);
}

/// Round trip: kilometers to meters and back is the identity.
pub proof fn lemma_km_m_round_trip<T: ScalarCast>(a: KM<T>, b: M<T>, c: KM<T>)
    requires
        b.0.sval() == a.to_m_val(),
        c.0.sval() == b.to_km_val(),
    ensures
        c == a,
{
    lemma_trunc_div_mul_exact(a.0.sval(), 1000);
    lemma_same_km(c, a);
}

/// Round trip: kilometers to millimeters and back is the identity.
pub proof fn lemma_km_mm_round_trip<T: ScalarCast>(a: KM<T>, b: MM<T>, c: KM<T>)
    requires
        b.0.sval() == a.to_mm_val(),
        c.0.sval() == b.to_km_val(),
    ensures
        c == a,
{
    let x = a.0.sval();
    assert(b.0.sval() == (x * 1000) * 1000);
    lemma_trunc_div_mul_exact(x * 1000, 1000);
    lemma_trunc_div_mul_exact(x, 1000);
    lemma_same_km(c, a);
}

/// Round trip: kilometers to centimeters and back is the identity.
pub proof fn lemma_km_cm_round_trip<T: ScalarCast>(a: KM<T>, b: CM<T>, c: KM<T>)
    requires
        b.0.sval() == a.to_cm_val(),
        c.0.sval() == b.to_km_val(),
    ensures
        c == a,
{
    let x = a.0.sval();
    assert(b.0.sval() == (x * 1000) * 100);
    lemma_trunc_div_mul_exact(x * 1000, 100);
    lemma_trunc_div_mul_exact(x, 1000);
    lemma_same_km(c, a);
}

} // verus!
