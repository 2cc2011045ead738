use std::cell::RefCell;
use std::rc::Rc;

use rrtk::{
    latest, Chronology, ConstantGetter, Datum, Getter, GetterFromChronology, NoneGetter,
    NothingOrError, OptionDatumExt, Output, Settable, Time, TimeGetter, TimeGetterFromGetter,
    TimeOutput, Updatable,
};

const ZERO: Time = Time(0);

///A handle to an input that both a stream and the test can reach.
struct Shared<T>(Rc<RefCell<T>>);

impl<T> Shared<T> {
    fn new(inner: T) -> Self {
        Shared(Rc::new(RefCell::new(inner)))
    }
}

impl<T> Clone for Shared<T> {
    fn clone(&self) -> Self {
        Shared(self.0.clone())
    }
}

impl<E, U: Updatable<E>> Updatable<E> for Shared<U> {
    fn update(&mut self) -> NothingOrError<E> {
        self.0.borrow_mut().update()
    }
}

impl<T, E, G: Getter<T, E>> Getter<T, E> for Shared<G> {
    fn get(&self) -> Output<T, E> {
        Getter::get(&*self.0.borrow())
    }
}

impl<E, TG: TimeGetter<E>> TimeGetter<E> for Shared<TG> {
    fn get(&self) -> TimeOutput<E> {
        TimeGetter::get(&*self.0.borrow())
    }
}

#[test]
fn latest_datum() {
    assert_eq!(
        latest(
            Datum::new(ZERO, 0),
            Datum::new(Time::from_nanoseconds(1), 1)
        ),
        Datum::new(Time::from_nanoseconds(1), 1)
    );
    assert_eq!(
        latest(
            Datum::new(Time::from_nanoseconds(1), 0),
            Datum::new(ZERO, 1)
        ),
        Datum::new(Time::from_nanoseconds(1), 0)
    );
    assert_eq!(
        latest(Datum::new(ZERO, 0), Datum::new(ZERO, 1)),
        Datum::new(ZERO, 0)
    );
}
#[test]
fn datum_replace_if_older_than() {
    let mut x = Datum::new(Time::from_nanoseconds(2_000_000_000), 2);
    let y = Datum::new(Time::from_nanoseconds(1_000_000_000), 3);
    assert!(!x.replace_if_older_than(y));
    assert_eq!(x, Datum::new(Time::from_nanoseconds(2_000_000_000), 2));
    let y = Datum::new(Time::from_nanoseconds(2_000_000_000), 3);
    assert!(!x.replace_if_older_than(y));
    assert_eq!(x, Datum::new(Time::from_nanoseconds(2_000_000_000), 2));
    let y = Datum::new(Time::from_nanoseconds(3_000_000_000), 3);
    assert!(x.replace_if_older_than(y));
    assert_eq!(x, y);
}
#[test]
fn datum_replace_if_none_or_older_than() {
    let mut x = None;
    let y = Datum::new(Time::from_nanoseconds(2_000_000_000), 2);
    assert!(x.replace_if_none_or_older_than(y));
    assert_eq!(x, Some(y));
    let y = Datum::new(Time::from_nanoseconds(1_000_000_000), 3);
    assert!(!x.replace_if_none_or_older_than(y));
    assert_eq!(
        x,
        Some(Datum::new(Time::from_nanoseconds(2_000_000_000), 2))
    );
    let y = Datum::new(Time::from_nanoseconds(2_000_000_000), 3);
    assert!(!x.replace_if_none_or_older_than(y));
    assert_eq!(
        x,
        Some(Datum::new(Time::from_nanoseconds(2_000_000_000), 2))
    );
    let y = Datum::new(Time::from_nanoseconds(3_000_000_000), 3);
    assert!(x.replace_if_none_or_older_than(y));
    assert_eq!(x, Some(y));
}
#[test]
fn datum_replace_if_none_or_older_than_option() {
    let mut x = None;
    let y = None;
    assert!(!x.replace_if_none_or_older_than_option(y));
    assert_eq!(x, None);
    let y = Some(Datum::new(Time::from_nanoseconds(2_000_000_000), 2));
    assert!(x.replace_if_none_or_older_than_option(y));
    assert_eq!(x, y);
}
#[test]
fn datum_not() {
    assert_eq!(!Datum::new(ZERO, false), Datum::new(ZERO, true));
}
#[test]
fn datum_neg() {
    assert_eq!(-Datum::new(ZERO, 1), Datum::new(ZERO, -1));
}
#[test]
fn datum_add() {
    assert_eq!(
        Datum::new(ZERO, 1) + Datum::new(Time::from_nanoseconds(1), 1),
        Datum::new(Time::from_nanoseconds(1), 2)
    );
    assert_eq!(
        Datum::new(Time::from_nanoseconds(1), 1) + Datum::new(ZERO, 1),
        Datum::new(Time::from_nanoseconds(1), 2)
    );

    let mut x = Datum::new(ZERO, 1);
    x += Datum::new(Time::from_nanoseconds(1), 1);
    assert_eq!(x, Datum::new(Time::from_nanoseconds(1), 2));

    let mut x = Datum::new(Time::from_nanoseconds(1), 1);
    x += Datum::new(ZERO, 1);
    assert_eq!(x, Datum::new(Time::from_nanoseconds(1), 2));

    assert_eq!(Datum::new(ZERO, 1) + 1, Datum::new(ZERO, 2));

    let mut x = Datum::new(ZERO, 1);
    x += 1;
    assert_eq!(x, Datum::new(ZERO, 2));
}
#[test]
fn datum_sub() {
    assert_eq!(
        Datum::new(ZERO, 1) - Datum::new(Time::from_nanoseconds(1), 1),
        Datum::new(Time::from_nanoseconds(1), 0)
    );
    assert_eq!(
        Datum::new(Time::from_nanoseconds(1), 1) - Datum::new(ZERO, 1),
        Datum::new(Time::from_nanoseconds(1), 0)
    );

    let mut x = Datum::new(ZERO, 1);
    x -= Datum::new(Time::from_nanoseconds(1), 1);
    assert_eq!(x, Datum::new(Time::from_nanoseconds(1), 0));

    let mut x = Datum::new(Time::from_nanoseconds(1), 1);
    x -= Datum::new(ZERO, 1);
    assert_eq!(x, Datum::new(Time::from_nanoseconds(1), 0));

    assert_eq!(Datum::new(ZERO, 1) - 1, Datum::new(ZERO, 0));

    let mut x = Datum::new(ZERO, 1);
    x -= 1;
    assert_eq!(x, Datum::new(ZERO, 0));
}
#[test]
fn datum_mul() {
    assert_eq!(
        Datum::new(ZERO, 2) * Datum::new(Time::from_nanoseconds(1), 3),
        Datum::new(Time::from_nanoseconds(1), 6)
    );
    assert_eq!(
        Datum::new(Time::from_nanoseconds(1), 2) * Datum::new(ZERO, 3),
        Datum::new(Time::from_nanoseconds(1), 6)
    );

    let mut x = Datum::new(ZERO, 2);
    x *= Datum::new(Time::from_nanoseconds(1), 3);
    assert_eq!(x, Datum::new(Time::from_nanoseconds(1), 6));

    let mut x = Datum::new(Time::from_nanoseconds(1), 2);
    x *= Datum::new(ZERO, 3);
    assert_eq!(x, Datum::new(Time::from_nanoseconds(1), 6));

    assert_eq!(Datum::new(ZERO, 2) * 3, Datum::new(ZERO, 6));

    let mut x = Datum::new(ZERO, 2);
    x *= 3;
    assert_eq!(x, Datum::new(ZERO, 6));
}
#[test]
fn datum_div() {
    assert_eq!(
        Datum::new(ZERO, 6) / Datum::new(Time::from_nanoseconds(1), 2),
        Datum::new(Time::from_nanoseconds(1), 3)
    );
    assert_eq!(
        Datum::new(Time::from_nanoseconds(1), 6) / Datum::new(ZERO, 2),
        Datum::new(Time::from_nanoseconds(1), 3)
    );

    let mut x = Datum::new(ZERO, 6);
    x /= Datum::new(Time::from_nanoseconds(1), 2);
    assert_eq!(x, Datum::new(Time::from_nanoseconds(1), 3));

    let mut x = Datum::new(Time::from_nanoseconds(1), 6);
    x /= Datum::new(ZERO, 2);
    assert_eq!(x, Datum::new(Time::from_nanoseconds(1), 3));

    assert_eq!(Datum::new(ZERO, 6) / 2, Datum::new(ZERO, 3));

    let mut x = Datum::new(ZERO, 6);
    x /= 2;
    assert_eq!(x, Datum::new(ZERO, 3));
}
#[test]
fn settable() {
    struct MySettable {
        last_request: Option<u8>,
    }
    impl MySettable {
        fn new() -> Self {
            Self { last_request: None }
        }
    }
    impl Settable<u8, ()> for MySettable {
        fn set(&mut self, x: u8) -> NothingOrError<()> {
            self.last_request = Some(x);
            Ok(())
        }
    }
    impl Updatable<()> for MySettable {
        fn update(&mut self) -> NothingOrError<()> {
            Ok(())
        }
    }
    let mut my_settable = MySettable::new();
    assert_eq!(my_settable.last_request, None);
    my_settable.set(3).unwrap();
    assert_eq!(my_settable.last_request, Some(3));
}
#[test]
fn constant_getter() {
    struct MyTimeGetter;
    impl TimeGetter<()> for MyTimeGetter {
        fn get(&self) -> TimeOutput<()> {
            Ok(ZERO)
        }
    }
    impl Updatable<()> for MyTimeGetter {
        fn update(&mut self) -> NothingOrError<()> {
            Ok(())
        }
    }
    let mut constant_getter = ConstantGetter::new(MyTimeGetter, 10);
    assert_eq!(constant_getter.get().unwrap().unwrap().value, 10);
    constant_getter.update().unwrap(); //This should do nothing.
    assert_eq!(constant_getter.get().unwrap().unwrap().value, 10);
    constant_getter.set(20).unwrap();
    assert_eq!(constant_getter.get().unwrap().unwrap().value, 20);
}
#[test]
fn none_getter() {
    let mut getter = NoneGetter::new();
    assert_eq!(<NoneGetter as Getter<(), ()>>::get(&getter), Ok(None));
    <NoneGetter as Updatable<()>>::update(&mut getter).unwrap();
    assert_eq!(<NoneGetter as Getter<(), ()>>::get(&getter), Ok(None));
}

#[test]
fn time_getter_from_getter() {
    #[derive(Clone, Copy, Debug, PartialEq, Eq)]
    enum Error {
        GetterNone,
        GetterError,
    }
    struct Stream {
        time: Time,
    }
    impl Stream {
        const fn new() -> Self {
            Self { time: ZERO }
        }
    }
    impl Getter<(), Error> for Stream {
        fn get(&self) -> Output<(), Error> {
            match self.time.as_nanoseconds() {
                0 => Ok(Some(Datum::new(self.time, ()))),
                1 => Ok(None),
                2 => Err(Error::GetterError),
                _ => panic!("should always be 0, 1, or 2"),
            }
        }
    }
    impl Updatable<Error> for Stream {
        fn update(&mut self) -> NothingOrError<Error> {
            self.time += Time::from_nanoseconds(1);
            Ok(())
        }
    }
    let mut stream = Shared::new(Stream::new());
    let mut time_getter = TimeGetterFromGetter::new(stream.clone(), Error::GetterNone);
    time_getter.update().unwrap(); //This should do nothing.
    assert_eq!(time_getter.get(), Ok(ZERO));
    stream.update().unwrap();
    assert_eq!(time_getter.get(), Err(Error::GetterNone));
    stream.update().unwrap();
    assert_eq!(time_getter.get(), Err(Error::GetterError));
}

#[test]
fn getter_from_chronology() {
    enum TestState {
        Standard,
        ReturnNone,
    }
    struct MyChronology {
        test_state: TestState,
    }
    impl MyChronology {
        fn new() -> Self {
            Self {
                test_state: TestState::Standard,
            }
        }
        fn set_none_test(&mut self) {
            self.test_state = TestState::ReturnNone;
        }
    }
    impl Chronology<i64> for MyChronology {
        fn get(&self, time: Time) -> Option<Datum<i64>> {
            match self.test_state {
                TestState::Standard => Some(Datum::new(time, time.as_nanoseconds())),
                TestState::ReturnNone => None,
            }
        }
    }
    struct MyTimeGetter {
        time: Time,
    }
    impl MyTimeGetter {
        const fn new() -> Self {
            Self {
                time: Time(5),
            }
        }
    }
    impl TimeGetter<()> for MyTimeGetter {
        fn get(&self) -> TimeOutput<()> {
            Ok(self.time)
        }
    }
    impl Updatable<()> for MyTimeGetter {
        fn update(&mut self) -> NothingOrError<()> {
            self.time += Time::from_nanoseconds(1);
            Ok(())
        }
    }
    let mut my_time_getter = Shared::new(MyTimeGetter::new());
    {
        let my_chronology = MyChronology::new();
        let no_delta = GetterFromChronology::new_no_delta(my_chronology, my_time_getter.clone());
        assert_eq!(
            no_delta.get().unwrap().unwrap(),
            Datum::new(Time::from_nanoseconds(5), 5)
        );
        my_time_getter.update().unwrap();
        assert_eq!(
            no_delta.get().unwrap().unwrap(),
            Datum::new(Time::from_nanoseconds(6), 6)
        );
    }
    {
        let my_chronology = MyChronology::new();
        let start_at_zero =
            GetterFromChronology::new_start_at_zero(my_chronology, my_time_getter.clone()).unwrap();
        assert_eq!(
            start_at_zero.get().unwrap().unwrap(),
            Datum::new(Time::from_nanoseconds(6), 0)
        );
        my_time_getter.update().unwrap();
        assert_eq!(
            start_at_zero.get().unwrap().unwrap(),
            Datum::new(Time::from_nanoseconds(7), 1)
        );
    }
    {
        let my_chronology = MyChronology::new();
        let custom_start = GetterFromChronology::new_custom_start(
            my_chronology,
            my_time_getter.clone(),
            Time::from_nanoseconds(10),
        )
        .unwrap();
        assert_eq!(
            custom_start.get().unwrap().unwrap(),
            Datum::new(Time::from_nanoseconds(7), 10)
        );
        my_time_getter.update().unwrap();
        assert_eq!(
            custom_start.get().unwrap().unwrap(),
            Datum::new(Time::from_nanoseconds(8), 11)
        );
    }
    {
        let my_chronology = MyChronology::new();
        let custom_delta = GetterFromChronology::new_custom_delta(
            my_chronology,
            my_time_getter.clone(),
            Time::from_nanoseconds(5),
        );
        assert_eq!(
            custom_delta.get().unwrap().unwrap(),
            Datum::new(Time::from_nanoseconds(8), 13)
        );
        my_time_getter.update().unwrap();
        assert_eq!(
            custom_delta.get().unwrap().unwrap(),
            Datum::new(Time::from_nanoseconds(9), 14)
        );
    }
    {
        let my_chronology = MyChronology::new();
        let mut getter = GetterFromChronology::new_no_delta(my_chronology, my_time_getter.clone());
        assert_eq!(
            getter.get().unwrap().unwrap(),
            Datum::new(Time::from_nanoseconds(9), 9)
        );
        getter.set_delta(Time::from_nanoseconds(5));
        assert_eq!(
            getter.get().unwrap().unwrap(),
            Datum::new(Time::from_nanoseconds(9), 14)
        );
        getter.set_time(Time::from_nanoseconds(20)).unwrap();
        assert_eq!(
            getter.get().unwrap().unwrap(),
            Datum::new(Time::from_nanoseconds(9), 20)
        );
    }
    {
        let mut my_chronology = MyChronology::new();
        my_chronology.set_none_test();
        let getter = GetterFromChronology::new_no_delta(my_chronology, my_time_getter.clone());
        assert_eq!(getter.get().unwrap(), None);
    }
}
