use rrtk::{DimensionlessFraction, DimensionlessInteger, Time};
#[test]
fn from_raw() {
    let x = DimensionlessFraction::new(DimensionlessInteger(1), DimensionlessInteger(4));
    let y = DimensionlessFraction::from_raw(1, 4);
    assert_eq!(x, y);
}
#[test]
fn reciprocal() {
    let x = DimensionlessFraction::from_raw(2, -3);
    assert_eq!(x.reciprocal(), DimensionlessFraction::from_raw(-3, 2),);
}
#[test]
fn neg() {
    let x = DimensionlessFraction::from_raw(1, 2);
    assert_eq!(-x, DimensionlessFraction::from_raw(-1, 2));
}
#[test]
fn equality() {
    let x = DimensionlessFraction::from_raw(1, 2);
    let y = DimensionlessFraction::from_raw(2, 4);
    let z = DimensionlessFraction::from_raw(2, 5);
    assert_eq!(x, y);
    assert!(x != z);
    assert!(y != z)
}
#[test]
fn order() {
    let mut fracs = [
        DimensionlessFraction::from_raw(-2, 6),
        DimensionlessFraction::from_raw(-20, 5),
        DimensionlessFraction::from_raw(81, 4),
        DimensionlessFraction::from_raw(-3, 9),
        DimensionlessFraction::from_raw(1, 300),
        DimensionlessFraction::from_raw(2, 400),
        DimensionlessFraction::from_raw(5000, 400),
        DimensionlessFraction::from_raw(-3, 5),
        DimensionlessFraction::from_raw(160, 8),
        DimensionlessFraction::from_raw(80, 4),
        DimensionlessFraction::from_raw(5000, 1),
        DimensionlessFraction::from_raw(0, 3),
        DimensionlessFraction::from_raw(-4, 1),
        DimensionlessFraction::from_raw(5000, 2),
        DimensionlessFraction::from_raw(0, 5),
        DimensionlessFraction::from_raw(1, 200),
        DimensionlessFraction::from_raw(2, 300),
        DimensionlessFraction::from_raw(0, 2),
        DimensionlessFraction::from_raw(-1, 3),
        DimensionlessFraction::from_raw(1, 100),
    ];
    let fracs_correct = [
        DimensionlessFraction::from_raw(-20, 5),
        DimensionlessFraction::from_raw(-4, 1),
        DimensionlessFraction::from_raw(-3, 5),
        DimensionlessFraction::from_raw(-2, 6),
        DimensionlessFraction::from_raw(-3, 9),
        DimensionlessFraction::from_raw(-1, 3),
        DimensionlessFraction::from_raw(0, 3),
        DimensionlessFraction::from_raw(0, 5),
        DimensionlessFraction::from_raw(0, 2),
        DimensionlessFraction::from_raw(1, 300),
        DimensionlessFraction::from_raw(2, 400),
        DimensionlessFraction::from_raw(1, 200),
        DimensionlessFraction::from_raw(2, 300),
        DimensionlessFraction::from_raw(1, 100),
        DimensionlessFraction::from_raw(5000, 400),
        DimensionlessFraction::from_raw(160, 8),
        DimensionlessFraction::from_raw(80, 4),
        DimensionlessFraction::from_raw(81, 4),
        DimensionlessFraction::from_raw(5000, 2),
        DimensionlessFraction::from_raw(5000, 1),
    ];
    fracs.sort_by(|a, b| a.partial_cmp(b).unwrap());
    assert_eq!(fracs, fracs_correct);
}
#[test]
fn order_2() {
    let a = DimensionlessFraction::from_raw(3, 2);
    let b = DimensionlessFraction::from_raw(1, 2);
    assert!(a > b);
    let c = DimensionlessFraction::from_raw(-3, -2);
    let d = DimensionlessFraction::from_raw(-1, -2);
    assert_eq!(a, c);
    assert_eq!(b, d);
    assert!(c > d);
    assert!(a > d);
    assert!(c > b);
}
#[test]
fn neg_zero() {
    let x = DimensionlessFraction::from_raw(0, 1);
    assert_eq!(-x, x);
}
#[test]
fn mul_self() {
    let x = DimensionlessFraction::from_raw(2, 3);
    let y = DimensionlessFraction::from_raw(1, 2);
    let z = DimensionlessFraction::from_raw(1, 3);
    assert_eq!(x * y, z);
}
#[test]
fn mul_assign_self() {
    let mut x = DimensionlessFraction::from_raw(2, 3);
    let y = DimensionlessFraction::from_raw(1, 2);
    let z = DimensionlessFraction::from_raw(1, 3);
    x *= y;
    assert_eq!(x, z);
}
#[test]
fn div_self() {
    let x = DimensionlessFraction::from_raw(2, 3);
    let y = DimensionlessFraction::from_raw(1, 2);
    let z = DimensionlessFraction::from_raw(4, 3);
    assert_eq!(x / y, z);
}
#[test]
fn div_assign_self() {
    let mut x = DimensionlessFraction::from_raw(2, 3);
    let y = DimensionlessFraction::from_raw(1, 2);
    let z = DimensionlessFraction::from_raw(4, 3);
    x /= y;
    assert_eq!(x, z);
}
#[test]
fn add_self() {
    let x = DimensionlessFraction::from_raw(2, 3);
    let y = DimensionlessFraction::from_raw(1, 2);
    let z = DimensionlessFraction::from_raw(7, 6);
    assert_eq!(x + y, z);
}
#[test]
fn add_assign_self() {
    let mut x = DimensionlessFraction::from_raw(2, 3);
    let y = DimensionlessFraction::from_raw(1, 2);
    let z = DimensionlessFraction::from_raw(7, 6);
    x += y;
    assert_eq!(x, z);
}
#[test]
fn sub_self() {
    let x = DimensionlessFraction::from_raw(2, 3);
    let y = DimensionlessFraction::from_raw(1, 2);
    let z = DimensionlessFraction::from_raw(1, 6);
    assert_eq!(x - y, z);
}
#[test]
fn sub_assign_self() {
    let mut x = DimensionlessFraction::from_raw(2, 3);
    let y = DimensionlessFraction::from_raw(1, 2);
    let z = DimensionlessFraction::from_raw(1, 6);
    x -= y;
    assert_eq!(x, z);
}
#[test]
fn mul_int() {
    assert_eq!(
        DimensionlessFraction::from_raw(5, 3) * DimensionlessInteger(2),
        DimensionlessFraction::from_raw(10, 3)
    );
}
#[test]
fn mul_assign_int() {
    let mut x = DimensionlessFraction::from_raw(5, 3);
    x *= DimensionlessInteger(2);
    assert_eq!(x, DimensionlessFraction::from_raw(10, 3));
}
#[test]
fn div_int() {
    assert_eq!(
        DimensionlessFraction::from_raw(5, 3) / DimensionlessInteger(2),
        DimensionlessFraction::from_raw(5, 6)
    );
}
#[test]
fn div_assign_int() {
    let mut x = DimensionlessFraction::from_raw(5, 3);
    x /= DimensionlessInteger(2);
    assert_eq!(x, DimensionlessFraction::from_raw(5, 6));
}
#[test]
fn add_int() {
    assert_eq!(
        DimensionlessFraction::from_raw(5, 3) + DimensionlessInteger(2),
        DimensionlessFraction::from_raw(11, 3)
    );
}
#[test]
fn add_assign_int() {
    let mut x = DimensionlessFraction::from_raw(5, 3);
    x += DimensionlessInteger(2);
    assert_eq!(x, DimensionlessFraction::from_raw(11, 3));
}
#[test]
fn sub_int() {
    assert_eq!(
        DimensionlessFraction::from_raw(5, 3) - DimensionlessInteger(2),
        DimensionlessFraction::from_raw(-1, 3)
    );
}
#[test]
fn sub_assign_int() {
    let mut x = DimensionlessFraction::from_raw(5, 3);
    x -= DimensionlessInteger(2);
    assert_eq!(x, DimensionlessFraction::from_raw(-1, 3));
}
#[test]
fn mul_time() {
    let x = DimensionlessFraction::from_raw(2, 3);
    let y = Time::from_nanoseconds(6_000_000);
    assert_eq!(x * y, Time::from_nanoseconds(4_000_000));
}
#[test]
fn mul_int_reverse() {
    let x = DimensionlessInteger(2);
    let y = DimensionlessFraction::from_raw(5, 3);
    assert_eq!(x * y, DimensionlessFraction::from_raw(10, 3));
}
#[test]
fn div_int_reverse() {
    let x = DimensionlessInteger(2);
    let y = DimensionlessFraction::from_raw(5, 3);
    assert_eq!(x / y, DimensionlessFraction::from_raw(6, 5));
}
#[test]
fn mul_time_reverse() {
    let x = Time::from_nanoseconds(6_000_000);
    let y = DimensionlessFraction::from_raw(2, 3);
    assert_eq!(x * y, Time::from_nanoseconds(4_000_000));
}
#[test]
fn mul_time_reverse_assign() {
    let mut x = Time::from_nanoseconds(6_000_000);
    x *= DimensionlessFraction::from_raw(2, 3);
    assert_eq!(x, Time::from_nanoseconds(4_000_000));
}
#[test]
fn time_div_by_dim_frac() {
    let x = Time::from_nanoseconds(6_000_000);
    let y = DimensionlessFraction::from_raw(2, 3);
    assert_eq!(x / y, Time::from_nanoseconds(9_000_000));
}
#[test]
fn time_div_by_dim_frac_assign() {
    let mut x = Time::from_nanoseconds(6_000_000);
    x /= DimensionlessFraction::from_raw(2, 3);
    assert_eq!(x, Time::from_nanoseconds(9_000_000));
}
#[test]
fn add_int_reverse() {
    assert_eq!(
        DimensionlessInteger(2) + DimensionlessFraction::from_raw(5, 3),
        DimensionlessFraction::from_raw(11, 3)
    );
}
#[test]
fn sub_int_reverse() {
    assert_eq!(
        DimensionlessInteger(2) - DimensionlessFraction::from_raw(5, 3),
        DimensionlessFraction::from_raw(1, 3)
    );
}
#[test]
fn raw_eq() {
    assert!(DimensionlessFraction::from_raw(2, 3).raw_eq(&DimensionlessFraction::from_raw(2, 3)));
    assert!(!DimensionlessFraction::from_raw(1, 3).raw_eq(&DimensionlessFraction::from_raw(1, 2)));
    assert!(!DimensionlessFraction::from_raw(1, 3).raw_eq(&DimensionlessFraction::from_raw(2, 3)));
    assert!(!DimensionlessFraction::from_raw(1, 3).raw_eq(&DimensionlessFraction::from_raw(3, 4)));
    assert!(!DimensionlessFraction::from_raw(1, 2).raw_eq(&DimensionlessFraction::from_raw(2, 4)));
    assert!(!DimensionlessFraction::from_raw(0, 1).raw_eq(&DimensionlessFraction::from_raw(0, 2)));
    assert!(
        !DimensionlessFraction::from_raw(1, 2).raw_eq(&DimensionlessFraction::from_raw(-1, -2))
    );
}
#[test]
fn new_new_unchecked_eq() {
    let x = DimensionlessFraction::new(DimensionlessInteger(2), DimensionlessInteger(3));
    let y = DimensionlessFraction::new_unchecked(DimensionlessInteger(2), DimensionlessInteger(3));
    assert_eq!(x, y);
}
#[test]
fn from_raw_unchecked() {
    let x = DimensionlessFraction::new_unchecked(DimensionlessInteger(1), DimensionlessInteger(7));
    let y = DimensionlessFraction::from_raw_unchecked(1, 7);
    assert!(x.raw_eq(&y));
}
#[test]
fn is_valid() {
    let x = DimensionlessFraction::from_raw(-1, 2);
    assert!(x.is_valid());
}
#[test]
fn reciprocal_unchecked() {
    let x = DimensionlessFraction::from_raw(2, -3);
    assert_eq!(x.reciprocal_unchecked(), DimensionlessFraction::from_raw(-3, 2));
    assert!(x.reciprocal_unchecked().raw_eq(&DimensionlessFraction::from_raw(-3, 2)));
}
#[test]
fn into_components_round_trip() {
    let x = DimensionlessInteger(2);
    let y = DimensionlessInteger(3);
    let frac = DimensionlessFraction::new(x, y);
    let (a, b) = frac.into_components();
    assert_eq!(a, x);
    assert_eq!(b, y);
}
#[test]
fn default_is_zero() {
    let zero = DimensionlessFraction::default();
    assert!(zero.raw_eq(&DimensionlessFraction::from_raw(0, 1)));
    assert_eq!(zero, DimensionlessFraction::from_raw(0, -8));
}
#[test]
fn equality_is_rational() {
    let a = DimensionlessFraction::from_raw(1, -2);
    let b = DimensionlessFraction::from_raw(-2, 4);
    let c = DimensionlessFraction::from_raw(3, -6);
    assert_eq!(a, b);
    assert_eq!(b, a);
    assert_eq!(b, c);
    assert_eq!(a, c);
    assert!(!a.raw_eq(&b));
}
#[test]
fn order_is_transitive_and_total() {
    let a = DimensionlessFraction::from_raw(-7, 3);
    let b = DimensionlessFraction::from_raw(1, -3);
    let c = DimensionlessFraction::from_raw(5, 4);
    assert!(a < b && b < c && a < c);
    for (x, y) in [(a, b), (b, c), (a, c), (c, a), (b, b)] {
        let count = [x < y, x == y, y < x].iter().filter(|holds| **holds).count();
        assert_eq!(count, 1);
    }
}
#[test]
fn arithmetic_respects_equality() {
    let a = DimensionlessFraction::from_raw(1, 2);
    let a2 = DimensionlessFraction::from_raw(-3, -6);
    let b = DimensionlessFraction::from_raw(2, 5);
    let b2 = DimensionlessFraction::from_raw(4, 10);
    assert_eq!(a + b, a2 + b2);
    assert_eq!(a * b, a2 * b2);
    assert_eq!(a / b, a2 / b2);
    assert_eq!(a + b, b + a);
    assert_eq!(a * b, b * a);
}
