use rrtk::compile_time_dimensions::Quantity;
use rrtk::compile_time_integer::{Integer, NegativeOnePlus, OnePlus, Pos1, Pos2, Zero};
use rrtk::streams::logic::{AndStream, NotStream, OrStream};
use rrtk::streams::{Latest, Latest2};
use rrtk::{AbsoluteValue, Datum, Getter, Half, NothingOrError, Output, Time, Updatable};

///Returns the output it holds.
struct Fixed(Output<bool, u8>);

impl Updatable<u8> for Fixed {
    fn update(&mut self) -> NothingOrError<u8> {
        Ok(())
    }
}

impl Getter<bool, u8> for Fixed {
    fn get(&self) -> Output<bool, u8> {
        self.0
    }
}

fn all_outputs() -> [Output<bool, u8>; 5] {
    [
        Err(1),
        Ok(None),
        Ok(Some(Datum::new(Time(3), false))),
        Ok(Some(Datum::new(Time(5), true))),
        Err(2),
    ]
}

#[test]
fn de_morgan_on_every_pair() {
    for x in all_outputs() {
        for y in all_outputs() {
            let not_and = NotStream::new(AndStream::new([Fixed(x), Fixed(y)]));
            let or_of_nots = OrStream::new([NotStream::new(Fixed(x)), NotStream::new(Fixed(y))]);
            assert_eq!(not_and.get(), or_of_nots.get());
            let not_or = NotStream::new(OrStream::new([Fixed(x), Fixed(y)]));
            let and_of_nots = AndStream::new([NotStream::new(Fixed(x)), NotStream::new(Fixed(y))]);
            assert_eq!(not_or.get(), and_of_nots.get());
        }
    }
}

#[test]
fn double_negation() {
    for x in all_outputs() {
        assert_eq!(NotStream::new(NotStream::new(Fixed(x))).get(), x);
    }
}

///Returns the output it holds.
struct FixedNumber(Output<u8, u8>);

impl Updatable<u8> for FixedNumber {
    fn update(&mut self) -> NothingOrError<u8> {
        Ok(())
    }
}

impl Getter<u8, u8> for FixedNumber {
    fn get(&self) -> Output<u8, u8> {
        self.0
    }
}

#[test]
fn latest2_matches_latest() {
    let outputs: [Output<u8, u8>; 5] = [
        Err(1),
        Ok(None),
        Ok(Some(Datum::new(Time(3), 30))),
        Ok(Some(Datum::new(Time(5), 50))),
        Ok(Some(Datum::new(Time(3), 31))),
    ];
    for x in outputs {
        for y in outputs {
            let two = Latest2::new(FixedNumber(x), FixedNumber(y));
            let many = Latest::new([FixedNumber(x), FixedNumber(y)]);
            assert_eq!(two.get(), many.get());
        }
    }
}

#[test]
fn latest_is_newest_first_on_tie() {
    let many = Latest::new([
        FixedNumber(Ok(Some(Datum::new(Time(3), 30)))),
        FixedNumber(Ok(None)),
        FixedNumber(Ok(Some(Datum::new(Time(7), 70)))),
        FixedNumber(Ok(Some(Datum::new(Time(7), 71)))),
        FixedNumber(Ok(Some(Datum::new(Time(2), 20)))),
    ]);
    assert_eq!(many.get(), Ok(Some(Datum::new(Time(7), 70))));
    let none = Latest::new([FixedNumber(Ok(None)), FixedNumber(Ok(None))]);
    assert_eq!(none.get(), Ok(None));
    let error_first = Latest::new([
        FixedNumber(Ok(Some(Datum::new(Time(9), 1)))),
        FixedNumber(Err(4)),
        FixedNumber(Err(5)),
    ]);
    assert_eq!(error_first.get(), Err(4));
}

#[test]
fn half_rounds_toward_zero() {
    assert_eq!(7u8.half(), 3);
    assert_eq!(7i32.half(), 3);
    assert_eq!((-7i32).half(), -3);
    assert_eq!(i64::MIN.half(), i64::MIN / 2);
}

#[test]
fn absolute_values() {
    assert_eq!((-5i16).rrtk_abs(), 5);
    assert_eq!(5i64.rrtk_abs(), 5);
    assert_eq!(0isize.rrtk_abs(), 0);
}

#[test]
fn compile_time_integer_values() {
    assert_eq!(<Zero as Integer>::as_i8(), 0);
    assert_eq!(<Pos2 as Integer>::as_i8(), 2);
    assert_eq!(<OnePlus<NegativeOnePlus<Zero>> as Integer>::as_i8(), 0);
    assert_eq!(<NegativeOnePlus<NegativeOnePlus<NegativeOnePlus<Zero>>> as Integer>::as_i8(), -3);
}

#[test]
fn quantity_arithmetic_keeps_unit() {
    let a: Quantity<i32, Pos1, Zero> = Quantity::new(6);
    let b = Quantity::<i32, Pos1, Zero>::from(4);
    assert_eq!((a + b).into_inner(), 10);
    assert_eq!((a - b).into_inner(), 2);
    assert_eq!(a.half().into_inner(), 3);
    assert_eq!(Quantity::<i32, Pos1, Zero>::new(-7).half().into_inner(), -3);
}
