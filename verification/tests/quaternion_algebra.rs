use quaternion::Quaternion;

#[test]
fn test_basic_calculations() {
    let q1 = Quaternion::new(1, 2, 3, 4);
    let q2 = Quaternion::new(-1, -2, -3, -4);
    let q3 = Quaternion::new(28, -4, -6, -8);
    assert_eq!(q1 + q2, Quaternion::new(0, 0, 0, 0));
    assert_eq!(q1 - q2, Quaternion::new(2, 4, 6, 8));
    assert_eq!(q1.conj(), Quaternion::new(1, -2, -3, -4));
    assert_eq!(Quaternion::grassman_product(q1, q2), q3);
    assert_eq!(q1 * q2, q3);
}

#[test]
fn test_additive_identity() {
    let q = Quaternion::new(7, -3, 0, 12);
    let zero = Quaternion::new(0, 0, 0, 0);
    assert_eq!(q + zero, q);
    assert_eq!(q - q, zero);
}

#[test]
fn test_conj_involution() {
    let q = Quaternion::new(5, -6, 7, -8);
    assert_eq!(q.conj().conj(), q);
}

#[test]
fn test_product_not_commutative() {
    let qi = Quaternion::new(0, 1, 0, 0);
    let qj = Quaternion::new(0, 0, 1, 0);
    assert_eq!(qi * qj, Quaternion::new(0, 0, 0, 1));
    assert_eq!(qj * qi, Quaternion::new(0, 0, 0, -1));
    assert_ne!(qi * qj, qj * qi);
}

#[test]
fn test_scalar_multiply_identity() {
    let q = Quaternion::new(9, -2, 4, -11);
    assert_eq!(q * 1, q);
}

#[test]
fn test_scalar_multiply_scales_components() {
    let q = Quaternion::new(1, -2, 3, -4);
    assert_eq!(q * -3, Quaternion::new(-3, 6, -9, 12));
}

#[test]
fn test_add_sub_round_trip() {
    let q1 = Quaternion::new(10, -20, 30, -40);
    let q2 = Quaternion::new(-7, 13, 0, 5);
    assert_eq!((q1 + q2) - q2, q1);
}

#[test]
fn test_mul_distributes_over_add() {
    let a = Quaternion::new(1, -2, 3, 4);
    let b = Quaternion::new(5, 6, -7, 8);
    let c = Quaternion::new(-9, 10, 11, -12);
    assert_eq!(
        Quaternion::grassman_product(a, b + c),
        Quaternion::grassman_product(a, b) + Quaternion::grassman_product(a, c)
    );
}

#[test]
fn test_cross_product_is_half_commutator() {
    let a = Quaternion::new(2, -1, 4, 3);
    let b = Quaternion::new(-5, 2, 0, 7);
    let commutator = a * b - b * a;
    assert_eq!(Quaternion::cross_product(a, b) * 2, commutator);
}

#[test]
fn test_cross_product_of_basis_elements() {
    let qi = Quaternion::new(0, 1, 0, 0);
    let qj = Quaternion::new(0, 0, 1, 0);
    assert_eq!(Quaternion::cross_product(qi, qj), Quaternion::new(0, 0, 0, 1));
}

#[test]
fn test_exchangeable_with_itself() {
    let q = Quaternion::new(4, -9, 2, 16);
    assert!(q.exchangeable(&q));
}

#[test]
fn test_exchangeable_scalar_multiples() {
    let q = Quaternion::new(3, -1, 5, 2);
    let scaled = q * -4;
    assert!(q.exchangeable(&scaled));
    assert!(scaled.exchangeable(&q));
}

#[test]
fn test_basis_elements_not_exchangeable() {
    let qi = Quaternion::new(0, 1, 0, 0);
    let qj = Quaternion::new(0, 0, 1, 0);
    assert!(!qi.exchangeable(&qj));
}

#[test]
fn test_real_part_and_imag() {
    let q = Quaternion::new(1, -2, 3, -4);
    assert_eq!(q.real_part(), 1);
    assert_eq!(q.imag(), vec![-2, 3, -4]);
}

#[test]
fn test_conj_keeps_real_part() {
    let q = Quaternion::new(-15, 8, -1, 0);
    let c = q.conj();
    assert_eq!(c.real_part(), -15);
    assert_eq!(c.imag(), vec![-8, 1, 0]);
}
