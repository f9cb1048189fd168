use beam_section::quaternion::Quaternion;
use beam_section::vector::Vector;

#[test]
fn quaternion_from() {
    assert_eq!(
        Quaternion::from(-3),
        Quaternion::new(Vector::new(0, 0, 0), -3)
    );
    assert_eq!(
        Quaternion::from(3.3),
        Quaternion::new(Vector::new(0.0, 0.0, 0.0), 3.3)
    );
}

#[test]
fn quaternion_add() {
    let a = &Quaternion::new(Vector::new(1.3, 0.1, -2.1), -0.8);
    let b = &Quaternion::new(Vector::new(0.2, -0.4, 0.0), 0.11);
    assert_eq!(
        a + b,
        Quaternion::new(Vector::new(1.3 + 0.2, 0.1 - 0.4, -2.1), -0.8 + 0.11)
    );
}

#[test]
fn quaternion_sub() {
    let a = &Quaternion::new(Vector::new(1.3, 0.1, -2.1), -0.8);
    let b = &Quaternion::new(Vector::new(0.2, -0.4, 0.0), 0.11);
    assert_eq!(
        a - b,
        Quaternion::new(Vector::new(1.3 - 0.2, 0.1 + 0.4, -2.1), -0.8 - 0.11)
    );
}

#[test]
fn quaternion_add_assign() {
    let mut a = Quaternion::new(Vector::new(1.3, 0.1, -2.1), -0.8);
    let b = &Quaternion::new(Vector::new(0.2, -0.4, 0.0), 0.11);
    a += b;
    assert_eq!(
        a,
        Quaternion::new(Vector::new(1.3 + 0.2, 0.1 - 0.4, -2.1), -0.8 + 0.11)
    );
}

#[test]
fn quaternion_sub_assign() {
    let mut a = Quaternion::new(Vector::new(1.3, 0.1, -2.1), -0.8);
    let b = &Quaternion::new(Vector::new(0.2, -0.4, 0.0), 0.11);
    a -= b;
    assert_eq!(
        a,
        Quaternion::new(Vector::new(1.3 - 0.2, 0.1 + 0.4, -2.1), -0.8 - 0.11)
    );
}

#[test]
fn neg() {
    let a = &Quaternion::new(Vector::new(1.3, 0.1, -2.1), -0.8);
    assert_eq!(-a, Quaternion::new(Vector::new(-1.3, -0.1, 2.1), 0.8));
}

#[test]
fn quaternion_mul() {
    let a = &Quaternion::new(Vector::new(1.3, 0.1, -2.1), -0.8);
    let b = &Quaternion::new(Vector::new(0.2, -0.4, 31.1), 0.11);
    assert_eq!(
        a * b,
        Quaternion::new(
            Vector::new(
                0.11 * 1.3 - 0.8 * 0.2 + (0.1 * 31.1 - 2.1 * 0.4),
                0.11 * 0.1 + 0.8 * 0.4 + (-2.1 * 0.2 - 1.3 * 31.1),
                -0.11 * 2.1 - 0.8 * 31.1 + (-1.3 * 0.4 - 0.1 * 0.2),
            ),
            -0.8 * 0.11 - (1.3 * 0.2 - 0.1 * 0.4 - 2.1 * 31.1),
        )
    );
}

#[test]
fn quaternion_mul_scalar() {
    let a = &Quaternion::new(Vector::new(1.3, 0.1, -2.1), -0.8);
    assert_eq!(
        a * &2.3,
        Quaternion::new(Vector::new(1.3 * 2.3, 0.1 * 2.3, -2.1 * 2.3), -0.8 * 2.3),
    );
    assert_eq!(
        a * &-3.6,
        Quaternion::new(Vector::new(-1.3 * 3.6, -0.1 * 3.6, 2.1 * 3.6), 0.8 * 3.6),
    );
}

#[test]
fn quaternion_mul_assign() {
    let mut a = Quaternion::new(Vector::new(1.3, 0.1, -2.1), -0.8);
    let b = Quaternion::new(Vector::new(0.2, -0.4, 31.1), 0.11);
    a *= &b;
    assert_eq!(
        a,
        Quaternion::new(
            Vector::new(
                0.11 * 1.3 - 0.8 * 0.2 + (0.1 * 31.1 - 2.1 * 0.4),
                0.11 * 0.1 + 0.8 * 0.4 + (-2.1 * 0.2 - 1.3 * 31.1),
                -0.11 * 2.1 - 0.8 * 31.1 + (-1.3 * 0.4 - 0.1 * 0.2),
            ),
            -0.8 * 0.11 - (1.3 * 0.2 - 0.1 * 0.4 - 2.1 * 31.1),
        )
    );
}

#[test]
fn quaternion_mul_assign_scalar() {
    let mut a = Quaternion::new(Vector::new(1.3, 0.1, -2.1), -0.8);
    a *= &2.3;
    assert_eq!(
        a,
        Quaternion::new(&Vector::new(1.3, 0.1, -2.1) * &2.3, -0.8 * 2.3),
    );
    a *= &-3.6;
    assert_eq!(
        a,
        Quaternion::new(
            &(&Vector::new(-1.3, -0.1, 2.1) * &2.3) * &3.6,
            0.8 * 2.3 * 3.6
        ),
    );
}

#[test]
fn div() {
    let a = &Quaternion::new(Vector::new(1.3, 0.1, -2.1), -0.8);
    assert_eq!(
        a / &2.3,
        Quaternion::new(&Vector::new(1.3, 0.1, -2.1) / &2.3, -0.8 / 2.3),
    );
    assert_eq!(
        a / &-3.6,
        Quaternion::new(Vector::new(-1.3 / 3.6, -0.1 / 3.6, 2.1 / 3.6), 0.8 / 3.6),
    );
}

#[test]
fn div_assign() {
    let mut a = Quaternion::new(Vector::new(1.3, 0.1, -2.1), -0.8);
    a /= &2.3;
    assert_eq!(
        a,
        Quaternion::new(&Vector::new(1.3, 0.1, -2.1) / &2.3, -0.8 / 2.3),
    );
    a /= &-3.6;
    assert_eq!(
        a,
        Quaternion::new(
            Vector::new(-1.3 / 2.3 / 3.6, -0.1 / 2.3 / 3.6, 2.1 / 2.3 / 3.6),
            0.8 / 2.3 / 3.6
        ),
    );
}

#[test]
fn quaternion_conj() {
    let a = Quaternion::new(Vector::new(1.3, 0.1, -2.1), -0.8);
    let b = Quaternion::new(Vector::new(0.2, -0.4, 31.1), 0.11);
    assert_eq!(
        a.conj(),
        Quaternion::new(Vector::new(-1.3, -0.1, 2.1), -0.8),
    );
    assert_eq!(
        b.conj(),
        Quaternion::new(Vector::new(-0.2, 0.4, -31.1), 0.11),
    );
}

#[test]
fn inv() {
    let a = Quaternion::new(Vector::new(1.3, 0.1, -2.1), -0.8);
    let b = Quaternion::new(Vector::new(0.2, -0.4, 31.1), 0.11);
    let ta = 1.3 * 1.3 + 0.1 * 0.1 + 2.1 * 2.1 + 0.8 * 0.8;
    let tb = 0.2 * 0.2 + 0.4 * 0.4 + 31.1 * 31.1 + 0.11 * 0.11;
    assert_eq!(
        a.inv(),
        Quaternion::new(Vector::new(-1.3 / ta, -0.1 / ta, 2.1 / ta), -0.8 / ta),
    );
    assert_eq!(
        b.inv(),
        Quaternion::new(Vector::new(-0.2 / tb, 0.4 / tb, -31.1 / tb), 0.11 / tb),
    );
}

#[test]
fn quaternion_dot() {
    let a = Quaternion::new(Vector::new(1.3, 0.1, -2.1), -0.8);
    let b = &Quaternion::new(Vector::new(0.2, -0.4, 31.1), 0.11);
    assert_eq!(a.dot(b), 1.3 * 0.2 - 0.1 * 0.4 - 2.1 * 31.1 - 0.8 * 0.11);
}

#[test]
fn from_translation() {
    assert_eq!(
        Quaternion::from_translation(&Vector::new(0.8, 3.2, -1.4)),
        Quaternion::new(Vector::new(0.8, 3.2, -1.4), 0.0),
    );
}

#[test]
fn quaternion_default() {
    assert_eq!(
        Quaternion::default(),
        Quaternion::new(Vector::new(0, 0, 0), 0)
    );
    assert_eq!(
        Quaternion::default(),
        Quaternion::new(Vector::new(0.0, 0.0, 0.0), 0.0)
    );
}
