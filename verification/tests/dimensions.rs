use rrtk::compile_time_dimensions::aliases::{Dimensionless, MillimeterPerSecond};
use rrtk::dimensions::transmute_safe;
use rrtk::{DimensionlessInteger, Time};
#[test]
fn i64_from_time() {
    let x = Time::from_nanoseconds(5_000_000_000).as_nanoseconds();
    let y = 5_000_000_000;
    assert_eq!(x, y);
}
#[test]
fn time_neg() {
    assert_eq!(
        -Time::from_nanoseconds(1_000_000_000),
        Time::from_nanoseconds(-1_000_000_000)
    );
}
#[test]
fn dimensionless_integer_new() {
    let x = DimensionlessInteger::new(5);
    let y = DimensionlessInteger(5);
    assert_eq!(x, y);
}
#[test]
fn dimensionless_integer_from_i64() {
    let x = DimensionlessInteger::from(5);
    let y = DimensionlessInteger(5);
    assert_eq!(x, y);
}
#[test]
fn i64_from_dimensionless_integer() {
    let x = i64::from(DimensionlessInteger(5));
    let y = 5;
    assert_eq!(x, y);
}
#[test]
fn dimensionless_integer_neg() {
    assert_eq!(-DimensionlessInteger(1), DimensionlessInteger(-1));
}

#[test]
fn transmute_unit_safe() {
    let x: i64 = transmute_safe::transmute_unit_safe(DimensionlessInteger(20));
    assert_eq!(x, 20);
    let y: DimensionlessInteger = transmute_safe::transmute_unit_safe(Dimensionless::new(40i64));
    assert_eq!(y, DimensionlessInteger(40));
    let z: Dimensionless<i64> = transmute_safe::transmute_unit_safe(DimensionlessInteger(39));
    assert_eq!(z, Dimensionless::new(39));
}

#[test]
fn transmute_memory_safe() {
    let x: i64 = transmute_safe::transmute_memory_safe(DimensionlessInteger(20));
    assert_eq!(x, 20);
    let y: DimensionlessInteger = transmute_safe::transmute_memory_safe(Dimensionless::new(40i64));
    assert_eq!(y, DimensionlessInteger(40));
    let z: Dimensionless<i64> = transmute_safe::transmute_memory_safe(DimensionlessInteger(39));
    assert_eq!(z, Dimensionless::new(39));
    let a: MillimeterPerSecond<i64> = transmute_safe::transmute_memory_safe(20i64);
    assert_eq!(a, MillimeterPerSecond::new(20));
    let b: DimensionlessInteger = transmute_safe::transmute_memory_safe(21i64);
    assert_eq!(b, DimensionlessInteger(21));
    let c: Time = transmute_safe::transmute_memory_safe(3_000_000_000_i64);
    assert_eq!(c, Time::from_nanoseconds(3_000_000_000));
}

#[test]
fn time_zero_and_default() {
    assert_eq!(Time::zero(), Time::from_nanoseconds(0));
    assert_eq!(Time::default(), Time::from_nanoseconds(0));
}
