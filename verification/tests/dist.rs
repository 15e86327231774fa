use fiz_math::dist::{CM, KM, M, MM, ToCM, ToKM, ToM, ToMM};

#[test]
fn m_to_mm_scales_up() {
    assert_eq!(M(1i64).to_mm(), MM(1000));
    assert_eq!(M(-2i64).to_mm(), MM(-2000));
}

#[test]
fn m_to_cm_scales_up() {
    assert_eq!(M(1i64).to_cm(), CM(100));
}

#[test]
fn m_to_km_scales_down() {
    assert_eq!(M(1000i64).to_km(), KM(1));
}

#[test]
fn identity_conversions() {
    assert_eq!(M(1i64).to_m(), M(1));
    assert_eq!(MM(7i64).to_mm(), MM(7));
    assert_eq!(CM(7i64).to_cm(), CM(7));
    assert_eq!(KM(7i64).to_km(), KM(7));
}

#[test]
fn mm_to_m_scales_down() {
    assert_eq!(MM(2000i64).to_m(), M(2));
    assert_eq!(MM(2i32).to_m(), M(0));
}

#[test]
fn cm_to_m_scales_down() {
    assert_eq!(CM(300i64).to_m(), M(3));
}

#[test]
fn km_to_m_scales_up() {
    assert_eq!(KM(2i64).to_m(), M(2000));
}

#[test]
fn cross_conversions_compose_through_meters() {
    assert_eq!(MM(5000i64).to_cm(), CM(500));
    assert_eq!(CM(300i64).to_mm(), MM(3000));
    assert_eq!(KM(1i64).to_mm(), MM(1000000));
    assert_eq!(KM(2i64).to_cm(), CM(200000));
    assert_eq!(MM(3000000i64).to_km(), KM(3));
    assert_eq!(CM(400000i64).to_km(), KM(4));
}

#[test]
fn conversions_round_toward_zero() {
    assert_eq!(MM(1500i64).to_m(), M(1));
    assert_eq!(MM(-1500i64).to_m(), M(-1));
    assert_eq!(CM(-199i64).to_m(), M(-1));
    assert_eq!(M(-1999i64).to_km(), KM(-1));
}

#[test]
fn round_trips_on_whole_multiples() {
    assert_eq!(M(5i64).to_mm().to_m(), M(5));
    assert_eq!(M(5i64).to_cm().to_m(), M(5));
    assert_eq!(M(7000i64).to_km().to_m(), M(7000));
    assert_eq!(MM(4000i64).to_m().to_mm(), MM(4000));
    assert_eq!(MM(9000i64).to_cm().to_mm(), MM(9000));
    assert_eq!(MM(8000000i64).to_km().to_mm(), MM(8000000));
    assert_eq!(CM(1200i64).to_m().to_cm(), CM(1200));
    assert_eq!(CM(500i64).to_mm().to_cm(), CM(500));
    assert_eq!(CM(700000i64).to_km().to_cm(), CM(700000));
    assert_eq!(KM(9i64).to_m().to_km(), KM(9));
    assert_eq!(KM(-3i64).to_mm().to_km(), KM(-3));
    assert_eq!(KM(11i64).to_cm().to_km(), KM(11));
}

#[test]
fn round_trip_negative_values() {
    assert_eq!(M(-5i64).to_mm().to_m(), M(-5));
    assert_eq!(MM(-4000i64).to_m().to_mm(), MM(-4000));
}

#[test]
fn conversions_in_narrower_types() {
    assert_eq!(M(1i32).to_mm(), MM(1000));
    assert_eq!(KM(2i32).to_m(), M(2000));
    assert_eq!(MM(4000i32).to_m().to_mm(), MM(4000));
}
