use std::cmp::Ordering;

use fiz_math::Vec4;
use fiz_math::dist::MM;

#[test]
fn new_holds_components() {
    let v = Vec4::new(4i64, 8, 2, 3);
    assert_eq!(v.x, 4);
    assert_eq!(v.y, 8);
    assert_eq!(v.z, 2);
    assert_eq!(v.w, 3);
}

#[test]
fn add_componentwise() {
    let a = Vec4::new(1i64, 2, 3, 3);
    let b = Vec4::new(4i64, 5, 6, 6);
    assert_eq!(a.add(b), Vec4::new(5, 7, 9, 9));
}

#[test]
fn sub_componentwise() {
    let a = Vec4::new(1i64, 2, 3, 3);
    let b = Vec4::new(4i64, 5, 6, 6);
    assert_eq!(a.sub(b), Vec4::new(-3, -3, -3, -3));
}

#[test]
fn mul_componentwise() {
    let a = Vec4::new(1i64, 2, 3, 3);
    let b = Vec4::new(4i64, 5, 6, 6);
    assert_eq!(a.mul(b), Vec4::new(4, 10, 18, 18));
}

#[test]
fn div_componentwise() {
    let a = Vec4::new(4i64, 5, 9, 9);
    let b = Vec4::new(1i64, 2, 3, 3);
    assert_eq!(a.div(b), Vec4::new(4, 2, 3, 3));
}

#[test]
fn div_rounds_toward_zero() {
    let a = Vec4::new(-5i64, 5, -7, 7);
    let b = Vec4::new(2i64, -2, 3, -3);
    assert_eq!(a.div(b), Vec4::new(-2, -2, -2, -2));
}

#[test]
fn add_scalar_broadcasts() {
    let a = Vec4::new(1i64, 2, 3, 4);
    assert_eq!(a.add_scalar(1), Vec4::new(2, 3, 4, 5));
}

#[test]
fn sub_scalar_broadcasts() {
    let a = Vec4::new(2i64, 3, 4, 5);
    assert_eq!(a.sub_scalar(1), Vec4::new(1, 2, 3, 4));
}

#[test]
fn mul_scalar_broadcasts() {
    let a = Vec4::new(1i64, 2, 3, 4);
    assert_eq!(a.mul_scalar(2), Vec4::new(2, 4, 6, 8));
}

#[test]
fn div_scalar_broadcasts() {
    let a = Vec4::new(2i64, 4, 6, 8);
    assert_eq!(a.div_scalar(2), Vec4::new(1, 2, 3, 4));
}

#[test]
fn neg_componentwise() {
    assert_eq!(Vec4::new(1i64, 2, 3, 4).neg(), Vec4::new(-1, -2, -3, -4));
}

#[test]
fn neg_twice_is_identity() {
    let v = Vec4::new(7i64, -9, 0, 23);
    assert_eq!(v.neg().neg(), v);
}

#[test]
fn add_zero_is_identity() {
    let v = Vec4::new(3i64, -8, 15, 2);
    let z = Vec4::<i64>::zero();
    assert_eq!(v.add(z), v);
    assert_eq!(z.add(v), v);
}

#[test]
fn mul_one_is_identity() {
    let v = Vec4::new(3i64, -8, 15, 2);
    let u = Vec4::<i64>::one();
    assert_eq!(v.mul(u), v);
    assert_eq!(u.mul(v), v);
}

#[test]
fn is_zero_detects_zero() {
    assert!(Vec4::new(0i64, 0, 0, 0).is_zero());
    assert!(!Vec4::new(1i64, 0, 0, 0).is_zero());
    assert!(Vec4::new(0u8, 0, 0, 0).is_zero());
    assert!(!Vec4::new(1i32, 0, 0, 0).is_zero());
    assert!(Vec4::<i32>::zero().is_zero());
}

#[test]
fn dot_sums_componentwise_products() {
    let a = Vec4::new(1i64, 2, 3, 3);
    let b = Vec4::new(4i64, 5, 6, 6);
    assert_eq!(a.dot(b), 4 + 10 + 18 + 18);
}

#[test]
fn length_sq_sums_squares() {
    let a = Vec4::new(1i64, 2, 3, 4);
    assert_eq!(a.length_sq(), 1 + 4 + 9 + 16);
}

#[test]
fn clamp_componentwise() {
    let a = Vec4::new(-2i64, 4, -6, 8);
    assert_eq!(a.clamp(-1, 2), Vec4::new(-1, 2, -1, 2));
}

#[test]
fn ordering_less_needs_all_components() {
    let a = Vec4::new(1i64, 2, 3, 4);
    let b = Vec4::new(2i64, 3, 4, 5);
    assert!(a < b);
    assert!(b > a);
    assert_eq!(a.partial_cmp(&b), Some(Ordering::Less));
    assert_eq!(b.partial_cmp(&a), Some(Ordering::Greater));
}

#[test]
fn ordering_mixed_is_incomparable() {
    let a = Vec4::new(1i64, 2, 3, 4);
    let mixed = Vec4::new(0i64, 2, 5, 4);
    assert_eq!(a.partial_cmp(&mixed), None);
    assert!(!(a < mixed));
    assert!(!(a > mixed));
    assert!(a != mixed);
}

#[test]
fn ordering_equal_vectors() {
    let a = Vec4::new(4i64, 5, 9, 9);
    let b = Vec4::new(4i64, 5, 9, 9);
    assert_eq!(a, b);
    assert_eq!(a.partial_cmp(&b), Some(Ordering::Equal));
}

#[test]
fn any_less_is_existential() {
    let a = Vec4::new(0i64, 0, 0, 1);
    assert!(a.any_less(&Vec4::new(0, 0, 0, 2)));
    assert!(!a.any_less(&Vec4::new(0, 0, 0, 1)));
}

#[test]
fn any_greater_is_existential() {
    let a = Vec4::new(0i64, 0, 0, 2);
    assert!(a.any_greater(&Vec4::new(0, 0, 0, 1)));
    assert!(!a.any_greater(&Vec4::new(0, 0, 0, 2)));
}

#[test]
fn unit_typed_components() {
    let a = Vec4::new(MM(1i64), MM(5), MM(2), MM(1));
    let b = Vec4::new(MM(2i64), MM(3), MM(4), MM(5));
    assert_eq!(a.add(b), Vec4::new(MM(3), MM(8), MM(6), MM(6)));
    assert!(a.any_less(&b));
}
